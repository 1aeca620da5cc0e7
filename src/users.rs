//! User records and the decisions of the user directory: what to store on
//! sign-up, what to return on a lookup, what to change on an update, and
//! whether a login succeeds.
use vstd::prelude::*;
use vstd::string::*;

use crate::credentials::{
    bcrypt_verdict, hash_password, issue_token_at, password_matches,
    token_reads, verify_password, CLOCK_OUT_OF_RANGE, CORRUPT_CREDENTIAL, CREDENTIALS_SERVICE,
    has_no_space, HASH_FAILED, TOKEN_LIFETIME_SECS,
};
use crate::error::{
    client_error, client_failure, failure_is, internal_error, internal_failure, SBError, StoreFault,
};
use crate::identity::AuthorizedUser;
use crate::ids::{decodes_to, hex_lower, is_object_id_text, ObjectKey};

verus! {

pub const USERS_SERVICE: &'static str = "users";

pub const NO_PASSWORD: &'static str = "No password provided";

pub const USERNAME_IN_USE: &'static str = "Username already in use.";

pub const EMAIL_IN_USE: &'static str = "Email already in use.";

pub const ACCOUNT_IN_USE: &'static str = "Username or email already in use.";

pub const NO_USER: &'static str = "No user found";

pub const PASSWORDLESS: &'static str = "Passwordless user.";

pub const AUTH_FAILED: &'static str = "Authentication failed.";

pub const INVALID_ID: &'static str = "Invalid identifier.";

pub const INVALID_PROFILE: &'static str = "Invalid username or email.";

pub const USER_NOT_FOUND: &'static str = "User not found.";

pub const UPDATE_FAILED: &'static str = "Failure updating user.";

pub const QUERY_FAILED: &'static str = "Could not query users.";

pub const CREATE_FAILED: &'static str = "Could not create user.";

pub const RECORD_WITHOUT_ID: &'static str = "Stored user has no id.";

/// The least number of characters of a username.
pub const MIN_USERNAME_CHARS: usize = 3;

/// A user record. The password field holds the stored hash; a record
/// returned to a caller never holds one.
#[derive(Clone, Debug)]
pub struct User {
    pub id: Option<ObjectKey>,
    pub username: String,
    pub password: Option<String>,
    pub first_name: String,
    pub last_name: String,
    pub email: String,
}

/// A partial profile update: only the fields present are applied.
#[derive(Clone, Debug)]
pub struct UpdateUser {
    pub username: Option<String>,
    pub email: Option<String>,
    pub first_name: Option<String>,
    pub last_name: Option<String>,
}

/// Login credentials: never stored.
#[derive(Clone, Debug)]
pub struct AuthenticateUser {
    pub email: String,
    pub password: String,
}

/// The user id of a route.
#[derive(Clone, Debug)]
pub struct Info {
    pub user_id: String,
}

/// The id of a user, as returned to a caller.
#[derive(Clone, Debug)]
pub struct UserResponseData {
    pub _id: String,
}

/// The id that storage gave a new record, as hex text.
#[derive(Clone, Debug)]
pub struct MarshalledInsertOne {
    pub _id: String,
}

/// What `validator::validate_email` says of a text.
pub uninterp spec fn email_valid_of(s: Seq<char>) -> bool;

/// Relies on `validator::validate_email`, a function of the text alone.
#[verifier::external_body]
fn email_is_valid(s: &str) -> (r: bool)
    ensures
        r == email_valid_of(s@),
{
    validator::validate_email(s)
}

pub open spec fn key_view(k: Option<ObjectKey>) -> Option<Seq<u8>> {
    match k {
        Some(k) => Some(k.bytes@),
        None => None,
    }
}

pub open spec fn opt_view(s: Option<String>) -> Option<Seq<char>> {
    match s {
        Some(s) => Some(s@),
        None => None,
    }
}

/// `a` and `b` agree on every field but the id and the password.
pub open spec fn same_details(a: User, b: User) -> bool {
    &&& a.username@ == b.username@
    &&& a.first_name@ == b.first_name@
    &&& a.last_name@ == b.last_name@
    &&& a.email@ == b.email@
}

/// A username of at least three characters and a well-formed email.
pub open spec fn profile_valid(u: User) -> bool {
    u.username@.len() >= MIN_USERNAME_CHARS && email_valid_of(u.email@)
}

/// `a` and `b` agree on every field but the password.
pub open spec fn same_profile(a: User, b: User) -> bool {
    &&& key_view(a.id) == key_view(b.id)
    &&& a.username@ == b.username@
    &&& a.first_name@ == b.first_name@
    &&& a.last_name@ == b.last_name@
    &&& a.email@ == b.email@
}

/// A record fit to return to a caller: the same profile, no hash.
pub open spec fn public_copy_of(r: User, u: User) -> bool {
    same_profile(r, u) && r.password is None
}

fn copy_key(k: &Option<ObjectKey>) -> (r: Option<ObjectKey>)
    ensures
        key_view(r) == key_view(*k),
{
    match k {
        Some(k) => Some(ObjectKey { bytes: k.bytes }),
        None => None,
    }
}

impl User {
    /// The same profile with `hash` as the stored password hash.
    pub fn copy_with_hash(&self, hash: String) -> (r: User)
        ensures
            same_profile(r, *self),
            opt_view(r.password) == Some(hash@),
    {
        User {
            id: copy_key(&self.id),
            username: self.username.clone(),
            password: Some(hash),
            last_name: self.last_name.clone(),
            first_name: self.first_name.clone(),
            email: self.email.clone(),
        }
    }

    /// The same profile with no password hash.
    pub fn copy_without_hash(&self) -> (r: User)
        ensures
            public_copy_of(r, *self),
    {
        User {
            id: copy_key(&self.id),
            username: self.username.clone(),
            password: None,
            last_name: self.last_name.clone(),
            first_name: self.first_name.clone(),
            email: self.email.clone(),
        }
    }

    /// The username has at least three characters and the email is well formed.
    pub fn validate(&self) -> (r: bool)
        ensures
            r == profile_valid(*self),
    {
        self.username.as_str().unicode_len() >= MIN_USERNAME_CHARS && email_is_valid(
            self.email.as_str(),
        )
    }
}

impl UpdateUser {
    /// Each field present is valid: a username of at least three
    /// characters, a well-formed email.
    pub fn validate(&self) -> (r: bool)
        ensures
            r == update_valid(*self),
    {
        let name_ok = match &self.username {
            Some(u) => u.as_str().unicode_len() >= MIN_USERNAME_CHARS,
            None => true,
        };
        let email_ok = match &self.email {
            Some(e) => email_is_valid(e.as_str()),
            None => true,
        };
        name_ok && email_ok
    }

    /// The fields to replace in the stored record, in this order: the email,
    /// then the username, each only if present. Other fields are never
    /// changed by a profile update.
    pub fn changes(&self) -> (r: Vec<(String, String)>)
        ensures
            r@.map_values(|p: (String, String)| (p.0@, p.1@)) == update_pairs(opt_view(self.email), opt_view(self.username)),
    {
        let mut r: Vec<(String, String)> = Vec::new();
        if let Some(e) = &self.email {
            r.push((String::from_str("email"), e.clone()));
        }
        if let Some(u) = &self.username {
            r.push((String::from_str("username"), u.clone()));
        }
        proof {
            reveal_strlit("email");
            reveal_strlit("username");
        }
        assert(r@.map_values(|p: (String, String)| (p.0@, p.1@)) =~= update_pairs(opt_view(self.email), opt_view(self.username)));
        r
    }
}

/// Each field present in the update is valid.
pub open spec fn update_valid(u: UpdateUser) -> bool {
    &&& (u.username matches Some(n) ==> n@.len() >= MIN_USERNAME_CHARS)
    &&& (u.email matches Some(e) ==> email_valid_of(e@))
}

/// The field/value pairs of a profile update.
pub open spec fn update_pairs(email: Option<Seq<char>>, username: Option<Seq<char>>) -> Seq<(Seq<char>, Seq<char>)> {
    let e = match email {
        Some(e) => seq![("email"@, e)],
        None => Seq::empty(),
    };
    let u = match username {
        Some(u) => seq![("username"@, u)],
        None => Seq::empty(),
    };
    e + u
}

/// Reads a user id. A text that is not an identifier is a client-class
/// failure, found before any storage access.
pub fn parse_user_id(user_id: &str) -> (r: Result<ObjectKey, SBError>)
    ensures
        r is Ok <==> is_object_id_text(user_id@),
        r matches Ok(k) ==> decodes_to(user_id@, k.bytes@),
        r matches Err(e) ==> client_failure(e, USERS_SERVICE@, INVALID_ID@),
{
    match ObjectKey::parse(user_id) {
        Some(k) => Ok(k),
        None => Err(client_error(USERS_SERVICE, INVALID_ID)),
    }
}

/// The first step of sign-up: a user without a password, or with a
/// username shorter than three characters or a malformed email, is refused;
/// otherwise storage is to be asked whether the username and the email are
/// taken.
pub fn begin_create(user: &User) -> (r: Result<(), SBError>)
    ensures
        r is Ok <==> user.password is Some && profile_valid(*user),
        user.password is None ==> (r matches Err(e) && client_failure(
            e,
            USERS_SERVICE@,
            NO_PASSWORD@,
        )),
        user.password is Some && !profile_valid(*user) ==> (r matches Err(e) && client_failure(
            e,
            USERS_SERVICE@,
            INVALID_PROFILE@,
        )),
{
    if user.password.is_none() {
        return Err(client_error(USERS_SERVICE, NO_PASSWORD));
    }
    if !user.validate() {
        return Err(client_error(USERS_SERVICE, INVALID_PROFILE));
    }
    Ok(())
}

/// A profile update on the record with id `user_id`: the key of the record
/// and the fields to replace. A text that is not an identifier, or a field
/// that is not valid, is refused before any storage access.
pub fn plan_update(user_id: &str, updates: &UpdateUser) -> (r: Result<
    (ObjectKey, Vec<(String, String)>),
    SBError,
>)
    ensures
        !is_object_id_text(user_id@) ==> (r matches Err(e) && client_failure(
            e,
            USERS_SERVICE@,
            INVALID_ID@,
        )),
        is_object_id_text(user_id@) && !update_valid(*updates) ==> (r matches Err(e)
            && client_failure(e, USERS_SERVICE@, INVALID_PROFILE@)),
        r is Ok <==> is_object_id_text(user_id@) && update_valid(*updates),
        r matches Ok((k, c)) ==> decodes_to(user_id@, k.bytes@) && c@.map_values(
            |p: (String, String)| (p.0@, p.1@),
        ) == update_pairs(opt_view(updates.email), opt_view(updates.username)),
{
    let key = parse_user_id(user_id)?;
    if !updates.validate() {
        return Err(client_error(USERS_SERVICE, INVALID_PROFILE));
    }
    Ok((key, updates.changes()))
}

/// `rec` is what to store for `user`: no id (storage gives one), the same
/// details, and a hash that the user's password matches in place of the
/// password.
pub open spec fn stored_record_for(rec: User, user: User) -> bool {
    &&& rec.id is None
    &&& same_details(rec, user)
    &&& match (rec.password, user.password) {
        (Some(h), Some(p)) => password_matches(p@, h@),
        _ => false,
    }
}

/// Why sign-up is refused, given the answers of storage on whether the
/// username and the email are taken: whether the failure is client-class,
/// and its text. `None` when the record is to be stored.
pub open spec fn create_refusal(
    user: User,
    username_taken: Result<bool, StoreFault>,
    email_taken: Result<bool, StoreFault>,
) -> Option<(bool, Seq<char>)> {
    if user.password is None {
        Some((true, NO_PASSWORD@))
    } else if !profile_valid(user) {
        Some((true, INVALID_PROFILE@))
    } else if username_taken is Err || email_taken is Err {
        Some((false, QUERY_FAILED@))
    } else if email_taken == Ok::<bool, StoreFault>(true) {
        Some((true, EMAIL_IN_USE@))
    } else if username_taken == Ok::<bool, StoreFault>(true) {
        Some((true, USERNAME_IN_USE@))
    } else {
        None
    }
}

/// The second step of sign-up. An invalid profile, or a duplicate username
/// or email, is refused and nothing is to be stored; otherwise the record
/// to store is the user without an id and with its password replaced by a
/// hash that the password matches.
pub fn finish_create(
    user: &User,
    username_taken: Result<bool, StoreFault>,
    email_taken: Result<bool, StoreFault>,
) -> (r: Result<User, SBError>)
    ensures
        create_refusal(*user, username_taken, email_taken) matches Some((c, m)) ==> (r matches Err(
            e,
        ) && failure_is(e, USERS_SERVICE@, c, m)),
        create_refusal(*user, username_taken, email_taken) is None ==> (r matches Ok(rec)
            ==> stored_record_for(rec, *user)),
        create_refusal(*user, username_taken, email_taken) is None ==> (r matches Err(e)
            ==> internal_failure(e, CREDENTIALS_SERVICE@, HASH_FAILED@)),
{
    let password = match &user.password {
        Some(p) => p,
        None => {
            return Err(client_error(USERS_SERVICE, NO_PASSWORD));
        },
    };
    if !user.validate() {
        return Err(client_error(USERS_SERVICE, INVALID_PROFILE));
    }
    let (name_taken, mail_taken) = match (username_taken, email_taken) {
        (Ok(a), Ok(b)) => (a, b),
        _ => {
            return Err(internal_error(USERS_SERVICE, QUERY_FAILED));
        },
    };
    if mail_taken {
        return Err(client_error(USERS_SERVICE, EMAIL_IN_USE));
    }
    if name_taken {
        return Err(client_error(USERS_SERVICE, USERNAME_IN_USE));
    }
    let hashed = hash_password(password.as_str())?;
    let mut rec = user.copy_with_hash(hashed);
    rec.id = None;
    Ok(rec)
}

/// The last step of sign-up: the id that storage gave the new record, as
/// hex text. A write refused by a uniqueness constraint is a duplicate
/// account.
pub fn finish_insert(outcome: Result<ObjectKey, StoreFault>) -> (r: Result<
    MarshalledInsertOne,
    SBError,
>)
    ensures
        outcome matches Ok(k) ==> (r matches Ok(m) && m._id@ == hex_lower(k.bytes@)),
        outcome matches Err(StoreFault::DuplicateKey) ==> (r matches Err(e) && client_failure(
            e,
            USERS_SERVICE@,
            ACCOUNT_IN_USE@,
        )),
        outcome matches Err(StoreFault::Unavailable) ==> (r matches Err(e) && internal_failure(
            e,
            USERS_SERVICE@,
            CREATE_FAILED@,
        )),
{
    match outcome {
        Ok(k) => Ok(MarshalledInsertOne { _id: k.to_hex() }),
        Err(StoreFault::DuplicateKey) => Err(client_error(USERS_SERVICE, ACCOUNT_IN_USE)),
        Err(StoreFault::Unavailable) => Err(internal_error(USERS_SERVICE, CREATE_FAILED)),
    }
}

/// A lookup by id: the record without its hash, or not found.
pub fn finish_get(found: Result<Option<User>, StoreFault>) -> (r: Result<User, SBError>)
    ensures
        found matches Ok(Some(u)) ==> (r matches Ok(v) && public_copy_of(v, u)),
        found matches Ok(None) ==> (r matches Err(e) && client_failure(e, USERS_SERVICE@, NO_USER@)),
        found is Err ==> (r matches Err(e) && internal_failure(e, USERS_SERVICE@, QUERY_FAILED@)),
{
    match found {
        Ok(Some(u)) => Ok(u.copy_without_hash()),
        Ok(None) => Err(client_error(USERS_SERVICE, NO_USER)),
        Err(_) => Err(internal_error(USERS_SERVICE, QUERY_FAILED)),
    }
}

/// A listing: every record without its hash, in the same order.
pub fn strip_hashes(users: &Vec<User>) -> (r: Vec<User>)
    ensures
        r@.len() == users@.len(),
        forall|i: int| 0 <= i < r@.len() ==> public_copy_of(#[trigger] r@[i], users@[i]),
{
    let mut r: Vec<User> = Vec::new();
    let mut i: usize = 0;
    while i < users.len()
        invariant
            0 <= i <= users@.len(),
            r@.len() == i,
            forall|j: int| 0 <= j < i ==> public_copy_of(#[trigger] r@[j], users@[j]),
        decreases users@.len() - i,
    {
        r.push(users[i].copy_without_hash());
        i = i + 1;
    }
    r
}

/// What a login decides before any token is issued, given the record found
/// by email and the password offered: the id of the user, or the refusal
/// (whether client-class, and its text).
pub open spec fn login_verdict(found: Result<Option<User>, StoreFault>, password: Seq<char>) -> Result<
    Seq<u8>,
    (bool, Seq<char>),
> {
    match found {
        Err(_) => Err((false, QUERY_FAILED@)),
        Ok(None) => Err((true, NO_USER@)),
        Ok(Some(u)) => match u.password {
            None => Err((true, PASSWORDLESS@)),
            Some(h) => match bcrypt_verdict(password, h@) {
                None => Err((false, CORRUPT_CREDENTIAL@)),
                Some(false) => Err((true, AUTH_FAILED@)),
                Some(true) => match u.id {
                    None => Err((false, RECORD_WITHOUT_ID@)),
                    Some(k) => Ok(k.bytes@),
                },
            },
        },
    }
}

/// A login at instant `now`: refused as `login_verdict` says, or a token
/// naming the user's id (as hex text) that expires `TOKEN_LIFETIME_SECS`
/// after `now`.
pub fn authenticate_at(
    found: Result<Option<User>, StoreFault>,
    password: &str,
    secret: &str,
    now: u64,
) -> (r: Result<String, SBError>)
    ensures
        login_verdict(found, password@) matches Err((c, m)) ==> (r matches Err(e) && failure_is(
            e,
            USERS_SERVICE@,
            c,
            m,
        )),
        login_verdict(found, password@) matches Ok(id) ==> (r matches Ok(t) ==> token_reads(
            t@,
            secret@,
            hex_lower(id),
            now + TOKEN_LIFETIME_SECS,
        )),
        login_verdict(found, password@) is Ok ==> (r is Ok <==> now + TOKEN_LIFETIME_SECS
            <= u64::MAX),
        login_verdict(found, password@) is Ok ==> (r matches Err(e) ==> internal_failure(
            e,
            CREDENTIALS_SERVICE@,
            CLOCK_OUT_OF_RANGE@,
        )),
        r matches Ok(t) ==> has_no_space(t@),
{
    let user = match found {
        Err(_) => {
            return Err(internal_error(USERS_SERVICE, QUERY_FAILED));
        },
        Ok(None) => {
            return Err(client_error(USERS_SERVICE, NO_USER));
        },
        Ok(Some(u)) => u,
    };
    let hash = match &user.password {
        None => {
            return Err(client_error(USERS_SERVICE, PASSWORDLESS));
        },
        Some(h) => h,
    };
    let ok = verify_password(password, hash.as_str())?;
    if !ok {
        return Err(client_error(USERS_SERVICE, AUTH_FAILED));
    }
    match &user.id {
        None => Err(internal_error(USERS_SERVICE, RECORD_WITHOUT_ID)),
        Some(k) => {
            let sub = k.to_hex();
            issue_token_at(sub.as_str(), secret, now)
        },
    }
}

/// A user may read, change or delete only their own record.
pub fn may_act_on_user(requester: &AuthorizedUser, user_id: &str) -> (r: bool)
    ensures
        r == (requester.sub@ == user_id@),
{
    requester.sub == String::from_str(user_id)
}

/// The outcome of a profile update, given whether storage found the record:
/// a record that is not there is a client-class failure.
pub fn finish_update(outcome: Result<bool, StoreFault>) -> (r: Result<(), SBError>)
    ensures
        outcome == Ok::<bool, StoreFault>(true) ==> r is Ok,
        outcome == Ok::<bool, StoreFault>(false) ==> (r matches Err(e) && client_failure(
            e,
            USERS_SERVICE@,
            USER_NOT_FOUND@,
        )),
        outcome is Err ==> (r matches Err(e) && internal_failure(e, USERS_SERVICE@, UPDATE_FAILED@)),
{
    match outcome {
        Ok(true) => Ok(()),
        Ok(false) => Err(client_error(USERS_SERVICE, USER_NOT_FOUND)),
        Err(_) => Err(internal_error(USERS_SERVICE, UPDATE_FAILED)),
    }
}

} // verus!
