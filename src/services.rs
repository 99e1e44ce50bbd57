//! The rules of the REST services: paging, registration, sign-in and room
//! administration. Each takes the store's answers as arguments.

use vstd::prelude::*;
use vstd::utf8::encode_utf8;
use crate::error::AppError;
use crate::models::{Message, PaginationParams, RegisterRequest, Room, User, UserResponse};
use crate::text::same_text;
use crate::token::{is_issued_pair, make_tokens_at, pair_fits, AuthTokens, TokenSettings};

verus! {

/// Messages listed per page when none is asked for.
pub const DEFAULT_PAGE_SIZE: u32 = 50;

/// The most messages listed per page.
pub const MAX_PAGE_SIZE: u32 = 200;

/// The page asked for: (limit, offset).
pub fn page_window(params: &PaginationParams) -> (r: (i64, i64))
    ensures
        r.0 == match params.limit {
            Some(l) => if l <= MAX_PAGE_SIZE {
                l
            } else {
                MAX_PAGE_SIZE
            },
            None => DEFAULT_PAGE_SIZE,
        },
        r.1 == match params.offset {
            Some(o) => o as i64,
            None => 0,
        },
{
    let limit = match params.limit {
        Some(l) => if l <= MAX_PAGE_SIZE {
            l
        } else {
            MAX_PAGE_SIZE
        },
        None => DEFAULT_PAGE_SIZE,
    };
    let offset = match params.offset {
        Some(o) => o,
        None => 0,
    };
    (limit as i64, offset as i64)
}

/// Whether a text holds the character `c`.
pub fn contains_char(s: &str, c: char) -> (r: bool)
    ensures
        r == s@.contains(c),
{
    let n = s.unicode_len();
    let mut i: usize = 0;
    while i < n
        invariant
            n == s@.len(),
            i <= n,
            forall|j: int| 0 <= j < i ==> s@[j] != c,
        decreases n - i,
    {
        if s.get_char(i) == c {
            assert(s@[i as int] == c);
            return true;
        }
        i += 1;
    }
    false
}

/// A registration that may be tried: a username of 3 to 50 bytes, a
/// password of at least 8 bytes, and an email address with an `@`.
pub open spec fn registration_ok(req: RegisterRequest) -> bool {
    &&& 3 <= encode_utf8(req.username@).len() <= 50
    &&& encode_utf8(req.password@).len() >= 8
    &&& req.email@.contains('@')
}

/// Checks a registration before the store is asked anything.
pub fn validate_registration(req: &RegisterRequest) -> (r: Result<(), AppError>)
    ensures
        r is Ok <==> registration_ok(*req),
        r matches Err(e) ==> e is BadRequest,
{
    let name_len = req.username.as_str().as_bytes().len();
    if name_len < 3 || name_len > 50 {
        return Err(AppError::BadRequest(String::from_str("Username must be 3-50 characters")));
    }
    if req.password.as_str().as_bytes().len() < 8 {
        return Err(AppError::BadRequest(String::from_str("Password must be at least 8 characters")));
    }
    if !contains_char(req.email.as_str(), '@') {
        return Err(AppError::BadRequest(String::from_str("Invalid email address")));
    }
    Ok(())
}

/// Refuses a registration whose username or email the store already holds.
pub fn check_registration_conflicts(username_taken: bool, email_taken: bool) -> (r: Result<(), AppError>)
    ensures
        r is Ok <==> !username_taken && !email_taken,
        r matches Err(e) ==> e is Conflict,
{
    if username_taken {
        return Err(AppError::Conflict(String::from_str("Username already taken")));
    }
    if email_taken {
        return Err(AppError::Conflict(String::from_str("Email already registered")));
    }
    Ok(())
}

/// Whether bcrypt finds that a password matches a hash; `None` when the
/// hash cannot be read.
pub uninterp spec fn bcrypt_matches(password: Seq<char>, hash: Seq<char>) -> Option<bool>;

/// Relies on `bcrypt::hash` at `bcrypt::DEFAULT_COST`: a salted hash, which
/// differs from call to call. `bcrypt::verify` reads the cost and salt back from the hash and runs the
/// same hashing, so the password matches the hash made from it.
#[verifier::external_body]
pub fn hash_password(plain: &str) -> (r: Result<String, AppError>)
    ensures
        r matches Ok(h) ==> bcrypt_matches(plain@, h@) == Some(true),
        r matches Err(e) ==> e is Bcrypt,
{
    bcrypt::hash(plain, bcrypt::DEFAULT_COST).map_err(|e| AppError::Bcrypt(e.to_string()))
}

/// Relies on `bcrypt::verify`: whether the password matches the hash.
#[verifier::external_body]
pub fn verify_password(plain: &str, hashed: &str) -> (r: Result<bool, AppError>)
    ensures
        match r {
            Ok(b) => bcrypt_matches(plain@, hashed@) == Some(b),
            Err(e) => bcrypt_matches(plain@, hashed@) is None && e is Bcrypt,
        },
{
    bcrypt::verify(plain, hashed).map_err(|e| AppError::Bcrypt(e.to_string()))
}

/// Signs in a user whose password has been checked, at time `now`: the
/// user's public record and a new token pair, or `Unauthorized` when the
/// password did not match.
pub fn finish_login(user: User, password_matches: bool, settings: &TokenSettings, now: i64) -> (r: Result<
    (UserResponse, AuthTokens),
    AppError,
>)
    ensures
        !password_matches ==> (r matches Err(e) && e is Unauthorized),
        password_matches ==> match r {
            Ok((resp, p)) => resp.id == user.id && resp.username@ == user.username@ && is_issued_pair(
                p,
                user.id,
                user.username@,
                *settings,
                now as int,
            ),
            Err(e) => e is Internal && !pair_fits(*settings, now as int),
        },
{
    if !password_matches {
        return Err(AppError::Unauthorized(String::from_str("Invalid password")));
    }
    let tokens = make_tokens_at(user.id, user.username.as_str(), settings, now)?;
    Ok((UserResponse::from(user), tokens))
}

/// Signs in the user that the store found, if any, with a password, at time
/// `now`.
pub fn login_with(user: Option<User>, password: &str, settings: &TokenSettings, now: i64) -> (r: Result<
    (UserResponse, AuthTokens),
    AppError,
>)
    ensures
        match user {
            None => r matches Err(e) && e is Unauthorized,
            Some(u) => match bcrypt_matches(password@, u.password_hash@) {
                None => r matches Err(e) && e is Bcrypt,
                Some(false) => r matches Err(e) && e is Unauthorized,
                Some(true) => match r {
                    Ok((resp, p)) => resp.id == u.id && resp.username@ == u.username@ && is_issued_pair(
                        p,
                        u.id,
                        u.username@,
                        *settings,
                        now as int,
                    ),
                    Err(e) => e is Internal && !pair_fits(*settings, now as int),
                },
            },
        },
{
    let user = match user {
        Some(u) => u,
        None => {
            return Err(AppError::Unauthorized(String::from_str("Invalid email or password")));
        },
    };
    let matches = verify_password(password, user.password_hash.as_str())?;
    finish_login(user, matches, settings, now)
}

/// Checks the name of a new room: 1 to 100 bytes.
pub fn check_room_name(name: &str) -> (r: Result<(), AppError>)
    ensures
        r is Ok <==> 1 <= encode_utf8(name@).len() <= 100,
        r matches Err(e) ==> e is BadRequest,
{
    let n = name.as_bytes().len();
    if n == 0 || n > 100 {
        Err(AppError::BadRequest(String::from_str("Room name must be 1-100 characters")))
    } else {
        Ok(())
    }
}

/// Whether `user_id` may change or delete the room that the store found:
/// its creator may, and so may a member whose role is `admin`.
pub fn may_manage_room(room: Option<&Room>, user_id: u128, role: Option<&str>) -> (r: Result<(), AppError>)
    ensures
        match room {
            None => r matches Err(e) && e is NotFound,
            Some(rm) => if rm.created_by == user_id || (role matches Some(x) && x@ == "admin"@) {
                r is Ok
            } else {
                r matches Err(e) && e is Forbidden
            },
        },
{
    let room = match room {
        Some(rm) => rm,
        None => {
            return Err(AppError::NotFound(String::from_str("Room not found")));
        },
    };
    if room.created_by == user_id {
        return Ok(());
    }
    match role {
        Some(x) => if same_text(x, "admin") {
            Ok(())
        } else {
            Err(AppError::Forbidden(String::from_str("Only room admin can perform this action")))
        },
        None => Err(AppError::Forbidden(String::from_str("Only room admin can perform this action"))),
    }
}

/// Whether `user` may join the room that the store found: anyone may join a
/// public room, only a member of record a private one.
pub fn may_join_room(room: Option<&Room>, is_member: bool) -> (r: Result<(), AppError>)
    ensures
        match room {
            None => r matches Err(e) && e is NotFound,
            Some(rm) => if rm.is_private && !is_member {
                r matches Err(e) && e is Forbidden
            } else {
                r is Ok
            },
        },
{
    match room {
        None => Err(AppError::NotFound(String::from_str("Room not found"))),
        Some(rm) => if rm.is_private && !is_member {
            Err(AppError::Forbidden(String::from_str("Room is private")))
        } else {
            Ok(())
        },
    }
}

/// Whether `user_id` may delete the message that the store found: only its
/// sender may.
pub fn may_delete_message(msg: Option<&Message>, user_id: u128) -> (r: Result<(), AppError>)
    ensures
        match msg {
            None => r matches Err(e) && e is NotFound,
            Some(m) => if m.sender_id == user_id {
                r is Ok
            } else {
                r matches Err(e) && e is Forbidden
            },
        },
{
    match msg {
        None => Err(AppError::NotFound(String::from_str("Message not found"))),
        Some(m) => if m.sender_id == user_id {
            Ok(())
        } else {
            Err(AppError::Forbidden(String::from_str("You can only delete your own messages")))
        },
    }
}

/// The outcome of deleting a room, given how many rows the store removed.
pub fn room_deleted(affected: u64) -> (r: Result<(), AppError>)
    ensures
        r is Ok <==> affected != 0,
        r matches Err(e) ==> e is NotFound,
{
    if affected == 0 {
        Err(AppError::NotFound(String::from_str("Room not found")))
    } else {
        Ok(())
    }
}

} // verus!
