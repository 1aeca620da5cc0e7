//! Identity guard: turns the `Authorization` header of a request into a
//! verified identity, or a classified refusal.
use vstd::prelude::*;
use vstd::string::*;

use crate::credentials::{
    has_no_space, jwt_claims_of, token_outcome, token_reads, verify_token_at,
    TokenError, TOKEN_LIFETIME_SECS,
};

verus! {

/// A request whose bearer token was verified.
#[derive(Debug)]
pub struct AuthorizedUser {
    /// The raw token the request presented.
    pub token: String,
    /// The subject the token names.
    pub sub: String,
}

/// Why a guard refused a request.
#[derive(Clone, Copy, Debug, PartialEq, Eq, Structural)]
pub enum GuardError {
    /// No `Authorization` header: unauthorized.
    MissingHeader,
    /// The header is not exactly two space-separated parts: bad request.
    MalformedHeader,
    /// The token was refused: unauthorized.
    InvalidToken(TokenError),
    /// The route gives no tenant id: a misconfigured route.
    MissingTenantId,
    /// The tenant id is not an identifier: bad request.
    InvalidTenantId,
    /// The subject is not a member of the tenant: unauthorized.
    NoTenantAccess,
    /// The membership lookup failed in storage: internal failure.
    StorageUnavailable,
}

pub open spec fn guard_status(e: GuardError) -> u16 {
    match e {
        GuardError::MissingHeader => 401,
        GuardError::MalformedHeader => 400,
        GuardError::InvalidToken(_) => 401,
        GuardError::MissingTenantId => 500,
        GuardError::InvalidTenantId => 400,
        GuardError::NoTenantAccess => 401,
        GuardError::StorageUnavailable => 500,
    }
}

pub open spec fn guard_message(e: GuardError) -> Seq<char> {
    match e {
        GuardError::MissingHeader => "missing header"@,
        GuardError::MalformedHeader => "malformed header"@,
        GuardError::InvalidToken(_) => "invalid token"@,
        GuardError::MissingTenantId => "no tenant id given for guard"@,
        GuardError::InvalidTenantId => "invalid tenant id"@,
        GuardError::NoTenantAccess => "no tenant access"@,
        GuardError::StorageUnavailable => "storage unavailable"@,
    }
}

impl GuardError {
    /// The HTTP status that stands for the refusal.
    pub fn status_code(&self) -> (r: u16)
        ensures
            r == guard_status(*self),
    {
        match self {
            GuardError::MissingHeader => 401,
            GuardError::MalformedHeader => 400,
            GuardError::InvalidToken(_) => 401,
            GuardError::MissingTenantId => 500,
            GuardError::InvalidTenantId => 400,
            GuardError::NoTenantAccess => 401,
            GuardError::StorageUnavailable => 500,
        }
    }

    /// The text shown to the caller.
    pub fn message(&self) -> (r: &'static str)
        ensures
            r@ == guard_message(*self),
    {
        match self {
            GuardError::MissingHeader => "missing header",
            GuardError::MalformedHeader => "malformed header",
            GuardError::InvalidToken(_) => "invalid token",
            GuardError::MissingTenantId => "no tenant id given for guard",
            GuardError::InvalidTenantId => "invalid tenant id",
            GuardError::NoTenantAccess => "no tenant access",
            GuardError::StorageUnavailable => "storage unavailable",
        }
    }
}

/// Position `i` holds the one and only space of `h`.
pub open spec fn sole_space_at(h: Seq<char>, i: int) -> bool {
    &&& 0 <= i < h.len()
    &&& h[i] == ' '
    &&& forall|j: int| 0 <= j < h.len() && j != i ==> h[j] != ' '
}

/// The token of a header made of exactly two space-separated parts (a
/// scheme and a token): the part after the space. `None` for any other
/// header.
pub open spec fn header_token(h: Seq<char>) -> Option<Seq<char>> {
    if exists|i: int| sole_space_at(h, i) {
        let i = choose|i: int| sole_space_at(h, i);
        Some(h.subrange(i + 1, h.len() as int))
    } else {
        None
    }
}

/// What the identity guard decides for a header (absent, or its text), a
/// secret and an instant: the token and the subject, or the refusal.
pub open spec fn identity_outcome(header: Option<Seq<char>>, secret: Seq<char>, now: int) -> Result<
    (Seq<char>, Seq<char>),
    GuardError,
> {
    match header {
        None => Err(GuardError::MissingHeader),
        Some(h) => match header_token(h) {
            None => Err(GuardError::MalformedHeader),
            Some(t) => match token_outcome(jwt_claims_of(t, secret), now) {
                Ok((sub, _)) => Ok((t, sub)),
                Err(k) => Err(GuardError::InvalidToken(k)),
            },
        },
    }
}

/// The identity of an outcome, as values.
pub open spec fn identity_view(r: Result<AuthorizedUser, GuardError>) -> Result<
    (Seq<char>, Seq<char>),
    GuardError,
> {
    match r {
        Ok(u) => Ok((u.token@, u.sub@)),
        Err(e) => Err(e),
    }
}

pub open spec fn str_view(h: Option<&str>) -> Option<Seq<char>> {
    match h {
        Some(s) => Some(s@),
        None => None,
    }
}

/// The token of a header made of a scheme and a token separated by one
/// space; `None` when the header splits on spaces into any other number of
/// parts.
pub fn bearer_token(header: &str) -> (r: Option<String>)
    ensures
        r matches Some(t) ==> header_token(header@) == Some(t@),
        r is None ==> header_token(header@) is None,
{
    let n = header.unicode_len();
    let mut first: Option<usize> = None;
    let mut i: usize = 0;
    while i < n
        invariant
            n == header@.len(),
            0 <= i <= n,
            first is None ==> forall|j: int| 0 <= j < i ==> header@[j] != ' ',
            first matches Some(f) ==> {
                &&& f < i
                &&& header@[f as int] == ' '
                &&& forall|j: int| 0 <= j < i && j != f ==> header@[j] != ' '
            },
        decreases n - i,
    {
        if header.get_char(i) == ' ' {
            match first {
                None => {
                    first = Some(i);
                },
                Some(f) => {
                    assert(!sole_space_at(header@, f as int));
                    assert forall|k: int| !sole_space_at(header@, k) by {
                        if k != f as int {
                            assert(header@[f as int] == ' ');
                        } else {
                            assert(header@[i as int] == ' ');
                        }
                    }
                    return None;
                },
            }
        }
        i = i + 1;
    }
    match first {
        None => {
            assert forall|k: int| !sole_space_at(header@, k) by {}
            None
        },
        Some(f) => {
            assert(sole_space_at(header@, f as int));
            assert forall|k: int| sole_space_at(header@, k) implies k == f by {
                assert(header@[f as int] == ' ');
            }
            Some(String::from_str(header.substring_char(f + 1, n)))
        },
    }
}

/// The identity guard at instant `now`: no header is unauthorized, a
/// header that is not a scheme and a token is a bad request, a token that
/// is refused is unauthorized; otherwise the token and its subject.
pub fn authorize_header_at(header: Option<&str>, secret: &str, now: u64) -> (r: Result<
    AuthorizedUser,
    GuardError,
>)
    ensures
        identity_view(r) == identity_outcome(str_view(header), secret@, now as int),
{
    let h = match header {
        None => {
            return Err(GuardError::MissingHeader);
        },
        Some(h) => h,
    };
    let token = match bearer_token(h) {
        None => {
            return Err(GuardError::MalformedHeader);
        },
        Some(t) => t,
    };
    let checked = verify_token_at(token.as_str(), secret, now);
    match checked {
        Ok(claims) => Ok(AuthorizedUser { token, sub: claims.sub }),
        Err(k) => Err(GuardError::InvalidToken(k)),
    }
}

/// An issued token presented as `Bearer <token>` passes the identity guard
/// with the same secret, naming the subject it was issued for, at every
/// instant up to its expiry `TOKEN_LIFETIME_SECS` after issue, and is refused
/// as expired (unauthorized) at every instant after.
pub proof fn lemma_bearer_token_round_trip(
    token: Seq<char>,
    sub: Seq<char>,
    secret: Seq<char>,
    issued: int,
    now: int,
)
    requires
        token_reads(token, secret, sub, issued + TOKEN_LIFETIME_SECS),
        has_no_space(token),
    ensures
        now <= issued + TOKEN_LIFETIME_SECS ==> identity_outcome(
            Some("Bearer "@ + token),
            secret,
            now,
        ) == Ok::<(Seq<char>, Seq<char>), GuardError>((token, sub)),
        now > issued + TOKEN_LIFETIME_SECS ==> identity_outcome(Some("Bearer "@ + token), secret, now)
            == Err::<(Seq<char>, Seq<char>), GuardError>(GuardError::InvalidToken(TokenError::Expired)),
{
    reveal_strlit("Bearer ");
    let h = "Bearer "@ + token;
    assert(h[6] == ' ');
    assert(sole_space_at(h, 6)) by {
        assert forall|j: int| 0 <= j < h.len() && j != 6 implies h[j] != ' ' by {
            if j >= 7 {
                assert(h[j] == token[j - 7]);
            }
        }
    }
    assert forall|k: int| sole_space_at(h, k) implies k == 6 by {}
    assert(h.subrange(7, h.len() as int) =~= token);
    assert(header_token(h) == Some(token));
}

} // verus!
