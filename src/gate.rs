//! The session gate: the admission check before a connection or a request
//! is served. It takes a credential of the form `Bearer <token>`, verifies
//! the token and admits only access tokens; every refusal is `Unauthorized`.

use vstd::prelude::*;
use crate::error::AppError;
use crate::ids::uuid_parsed;
use crate::text::{same_text, strip_prefix};
use crate::token::{access_kind, is_issued_token, issued_claims, unix_now, verified_claims, verify_token_at, Claims, ClaimsView};

verus! {

/// An authenticated caller: the claims of its access token.
pub struct AuthUser(pub Claims);

/// Who a connection or a request acts for.
pub struct Identity {
    pub user_id: u128,
    pub username: String,
}

/// The token in a credential, when the credential starts with `Bearer `.
pub open spec fn bearer_token(h: Seq<char>) -> Option<Seq<char>> {
    if "Bearer "@.len() <= h.len() && h.subrange(0, "Bearer "@.len() as int) == "Bearer "@ {
        Some(h.subrange("Bearer "@.len() as int, h.len() as int))
    } else {
        None
    }
}

/// The text of a credential, if there is one.
pub open spec fn header_text(header: Option<&str>) -> Option<Seq<char>> {
    match header {
        Some(h) => Some(h@),
        None => None,
    }
}

/// The claims that a credential admits at time `now`: a bearer token that
/// verifies and is an access token.
pub open spec fn admitted(credential: Option<Seq<char>>, secret: Seq<char>, now: int) -> Option<ClaimsView> {
    match credential {
        Some(h) => match bearer_token(h) {
            Some(t) => match verified_claims(t, secret, now) {
                Some(c) => if c.token_type == access_kind() {
                    Some(c)
                } else {
                    None
                },
                None => None,
            },
            None => None,
        },
        None => None,
    }
}

/// An access token issued at a time that is not before the epoch, sent as
/// `Bearer <token>` at any moment before it expires, admits its user with
/// the claims it was issued with.
pub proof fn lemma_issued_access_admitted(
    t: Seq<char>,
    user_id: u128,
    username: Seq<char>,
    now: int,
    ttl: int,
    secret: Seq<char>,
    at: int,
)
    requires
        is_issued_token(t, issued_claims(user_id, username, access_kind(), now, ttl), secret),
        now >= 0,
        now <= at < now + ttl,
    ensures
        admitted(Some("Bearer "@ + t), secret, at) == Some(issued_claims(user_id, username, access_kind(), now, ttl)),
{
    let h = "Bearer "@ + t;
    assert(h.subrange(0, "Bearer "@.len() as int) =~= "Bearer "@);
    assert(h.subrange("Bearer "@.len() as int, h.len() as int) =~= t);
    assert(verified_claims(t, secret, at) == Some(issued_claims(user_id, username, access_kind(), now, ttl)));
}

/// The token of a bearer credential.
pub fn extract_bearer(header: Option<&str>) -> (r: Result<&str, AppError>)
    ensures
        match header {
            Some(h) => match bearer_token(h@) {
                Some(t) => r matches Ok(s) && s@ == t,
                None => r matches Err(e) && (e matches AppError::Unauthorized(m) && m@ == "Invalid auth header"@),
            },
            None => r matches Err(e) && (e matches AppError::Unauthorized(m) && m@ == "Missing auth header"@),
        },
{
    match header {
        Some(h) => match strip_prefix(h, "Bearer ") {
            Some(t) => {
                assert(h@.subrange(0, "Bearer "@.len() as int) =~= "Bearer "@);
                assert(h@.subrange("Bearer "@.len() as int, h@.len() as int) =~= t@);
                Ok(t)
            },
            None => Err(AppError::Unauthorized(String::from_str("Invalid auth header"))),
        },
        None => Err(AppError::Unauthorized(String::from_str("Missing auth header"))),
    }
}

impl AuthUser {
    pub fn cliams(&self) -> (r: &Claims)
        ensures
            *r == self.0,
    {
        &self.0
    }

    /// Admits the caller of a credential at time `now`.
    pub fn from_header_at(header: Option<&str>, secret: &str, now: i64) -> (r: Result<AuthUser, AppError>)
        ensures
            match r {
                Ok(u) => admitted(header_text(header), secret@, now as int) == Some(u.0@),
                Err(e) => admitted(header_text(header), secret@, now as int) is None && e is Unauthorized,
            },
    {
        let token = extract_bearer(header)?;
        let claims = verify_token_at(token, secret, now)?;
        if !same_text(claims.token_type.as_str(), "access") {
            return Err(AppError::Unauthorized(String::from_str("Not a valid access token")));
        }
        Ok(AuthUser(claims))
    }

    /// Admits the caller of a credential at the current time.
    pub fn from_header(header: Option<&str>, secret: &str) -> (r: Result<AuthUser, AppError>)
        ensures
            match r {
                Ok(u) => exists|now: int| #[trigger] admitted(header_text(header), secret@, now) == Some(u.0@),
                Err(e) => e is Unauthorized,
            },
    {
        let now = unix_now();
        let r = AuthUser::from_header_at(header, secret, now);
        proof {
            if r is Ok {
                assert(admitted(header_text(header), secret@, now as int) == Some(r->Ok_0.0@));
            }
        }
        r
    }

    /// Who the caller is.
    pub fn identity(&self) -> (r: Result<Identity, AppError>)
        ensures
            match r {
                Ok(i) => uuid_parsed(self.0.sub@) == Some(i.user_id) && i.username@ == self.0.username@,
                Err(e) => uuid_parsed(self.0.sub@) is None && e is Unauthorized,
            },
    {
        let user_id = self.0.user_id()?;
        Ok(Identity { user_id, username: self.0.username.clone() })
    }
}

/// Admits a connection at time `now`: the identity that its credential
/// proves, or `Unauthorized`, before anything is registered.
pub fn admit_connection_at(credential: &str, secret: &str, now: i64) -> (r: Result<Identity, AppError>)
    ensures
        match admitted(Some(credential@), secret@, now as int) {
            Some(c) => match uuid_parsed(c.sub) {
                Some(id) => r matches Ok(i) && i.user_id == id && i.username@ == c.username,
                None => r matches Err(e) && e is Unauthorized,
            },
            None => r matches Err(e) && e is Unauthorized,
        },
{
    let user = AuthUser::from_header_at(Some(credential), secret, now)?;
    user.identity()
}

/// Admits a connection at the current time.
pub fn admit_connection(credential: &str, secret: &str) -> (r: Result<Identity, AppError>)
    ensures
        r matches Ok(i) ==> exists|now: int| #[trigger] admitted(Some(credential@), secret@, now) matches Some(c)
            && uuid_parsed(c.sub) == Some(i.user_id) && i.username@ == c.username,
        r matches Err(e) ==> e is Unauthorized,
{
    let now = unix_now();
    admit_connection_at(credential, secret, now)
}

} // verus!
