//! The token service: signed, time-bounded access and refresh credentials.
//!
//! A token is a JSON Web Token signed with HS256 under a server-held secret.
//! Its claims name the user (`sub`, `username`), when it was issued (`iat`)
//! and until when it holds (`exp`), both in seconds since the Unix epoch, and
//! whether it is an access or a refresh token (`token_type`).

use vstd::prelude::*;
use crate::error::AppError;
use crate::ids::{id_to_string, parse_id, uuid_parsed, uuid_text};
use crate::json::{
    distinct_keys, entry_models, int_of, lemma_distinct_keys, is_object, json_entry, json_int, json_model, json_object, json_str, member, object_of,
    text_of, JsonModel,
};
use crate::protocol::{text_field, text_member};
use crate::text::same_text;

verus! {

/// The claims of a token.
pub struct Claims {
    pub sub: String,
    pub username: String,
    pub exp: i64,
    pub iat: i64,
    pub token_type: String,
}

pub struct ClaimsView {
    pub sub: Seq<char>,
    pub username: Seq<char>,
    pub exp: int,
    pub iat: int,
    pub token_type: Seq<char>,
}

impl View for Claims {
    type V = ClaimsView;

    open spec fn view(&self) -> ClaimsView {
        ClaimsView {
            sub: self.sub@,
            username: self.username@,
            exp: self.exp as int,
            iat: self.iat as int,
            token_type: self.token_type@,
        }
    }
}

/// The kind of an access token.
pub open spec fn access_kind() -> Seq<char> {
    "access"@
}

/// The kind of a refresh token.
pub open spec fn refresh_kind() -> Seq<char> {
    "refresh"@
}

/// The JSON payload of the claims.
pub open spec fn claims_json(c: ClaimsView) -> JsonModel {
    JsonModel::Object(object_of(claims_entries(c)))
}

/// The members of the payload.
pub open spec fn claims_entries(c: ClaimsView) -> Seq<(Seq<char>, JsonModel)> {
    seq![
        ("sub"@, JsonModel::Str(c.sub)),
        ("username"@, JsonModel::Str(c.username)),
        ("exp"@, JsonModel::Int(c.exp)),
        ("iat"@, JsonModel::Int(c.iat)),
        ("token_type"@, JsonModel::Str(c.token_type)),
    ]
}

/// The integer in member `key`, if the object has one there that fits in `i64`.
pub open spec fn i64_member(o: Map<Seq<char>, JsonModel>, key: Seq<char>) -> Option<int> {
    if o.contains_key(key) {
        match o[key] {
            JsonModel::Int(i) => if i64::MIN <= i <= i64::MAX {
                Some(i)
            } else {
                None
            },
            _ => None,
        }
    } else {
        None
    }
}

/// The claims that a payload holds: an object with the five members, of the
/// right kinds; other members are ignored.
pub open spec fn claims_from_json(m: JsonModel) -> Option<ClaimsView> {
    match m {
        JsonModel::Object(o) => match (
            text_member(o, "sub"@),
            text_member(o, "username"@),
            i64_member(o, "exp"@),
            i64_member(o, "iat"@),
            text_member(o, "token_type"@),
        ) {
            (Some(sub), Some(username), Some(exp), Some(iat), Some(token_type)) => Some(
                ClaimsView { sub, username, exp, iat, token_type },
            ),
            _ => None,
        },
        _ => None,
    }
}

/// The claims of a token issued at `now` to last `ttl` seconds.
pub open spec fn issued_claims(user_id: u128, username: Seq<char>, kind: Seq<char>, now: int, ttl: int) -> ClaimsView {
    ClaimsView { sub: uuid_text(user_id), username, exp: now + ttl, iat: now, token_type: kind }
}

/// The token that jsonwebtoken signs, with its default HS256 header, for a
/// payload under a secret.
pub uninterp spec fn jwt_signed(payload: JsonModel, secret: Seq<char>) -> Seq<char>;

/// The payload of a token whose HS256 signature checks under a secret, as
/// jsonwebtoken reads it with expiry left unchecked.
pub uninterp spec fn jwt_opened(token: Seq<char>, secret: Seq<char>) -> Option<JsonModel>;

/// The claims that a token proves at time `now`: it is signed under the
/// secret, its payload holds claims, and they have not expired (`now < exp`).
pub open spec fn verified_claims(token: Seq<char>, secret: Seq<char>, now: int) -> Option<ClaimsView> {
    match jwt_opened(token, secret) {
        Some(m) => match claims_from_json(m) {
            Some(c) => if now < c.exp {
                Some(c)
            } else {
                None
            },
            None => None,
        },
        None => None,
    }
}

/// Relies on `jsonwebtoken::encode` with the default header (HS256) and an
/// HMAC key made from the secret's bytes: the token is determined by the
/// payload and the secret, and `jsonwebtoken::decode` under the same secret
/// checks its signature and reads the payload back; a payload of claims
/// with a non-negative `exp` meets every check that `open_token` leaves on.
/// Signing cannot fail: the HMAC key fits the HS256 header, an HMAC key of
/// any length is accepted, and a `Value` always serializes.
#[verifier::external_body]
fn sign_token(payload: &serde_json::Value, secret: &str) -> (r: Result<String, String>)
    ensures
        r is Ok,
        r matches Ok(t) ==> t@ == jwt_signed(json_model(*payload), secret@),
        r matches Ok(t) ==> forall|c: ClaimsView|
            json_model(*payload) == claims_json(c) && c.exp >= 0 ==> #[trigger] jwt_opened(t@, secret@)
                == Some(claims_json(c)),
{
    let key = jsonwebtoken::EncodingKey::from_secret(secret.as_bytes());
    jsonwebtoken::encode(&jsonwebtoken::Header::default(), payload, &key).map_err(|e| e.to_string())
}

/// Relies on `jsonwebtoken::decode::<serde_json::Value>` with HS256, an HMAC
/// key made from the secret's bytes, and expiry validation off: the payload
/// when the signature checks.
#[verifier::external_body]
fn open_token(token: &str, secret: &str) -> (r: Option<serde_json::Value>)
    ensures
        match r {
            Some(v) => jwt_opened(token@, secret@) == Some(json_model(v)),
            None => jwt_opened(token@, secret@) is None,
        },
{
    let key = jsonwebtoken::DecodingKey::from_secret(secret.as_bytes());
    let mut validation = jsonwebtoken::Validation::new(jsonwebtoken::Algorithm::HS256);
    validation.validate_exp = false;
    jsonwebtoken::decode::<serde_json::Value>(token, &key, &validation).ok().map(|d| d.claims)
}

/// Relies on `chrono::Utc::now`: the current time in whole seconds since the
/// Unix epoch. `Utc::now` panics on a clock before the epoch, so what it
/// returns is never negative; nothing else is known of its value.
#[verifier::external_body]
pub fn unix_now() -> (r: i64)
    ensures
        r >= 0,
{
    chrono::Utc::now().timestamp()
}

/// Reading the payload of claims gives the claims back.
pub proof fn lemma_claims_json_round_trip(c: ClaimsView)
    requires
        i64::MIN <= c.exp <= i64::MAX,
        i64::MIN <= c.iat <= i64::MAX,
    ensures
        claims_from_json(claims_json(c)) == Some(c),
{
    reveal_strlit("sub");
    reveal_strlit("username");
    reveal_strlit("exp");
    reveal_strlit("iat");
    reveal_strlit("token_type");
    let entries = seq![
        ("sub"@, JsonModel::Str(c.sub)),
        ("username"@, JsonModel::Str(c.username)),
        ("exp"@, JsonModel::Int(c.exp)),
        ("iat"@, JsonModel::Int(c.iat)),
        ("token_type"@, JsonModel::Str(c.token_type)),
    ];
    reveal_with_fuel(object_of, 6);
    assert(entries.drop_last().drop_last().drop_last().drop_last().drop_last() =~= Seq::<(Seq<char>, JsonModel)>::empty());
    let o = object_of(entries);
    assert("sub"@[0] != "exp"@[0] && "sub"@[0] != "iat"@[0] && "sub"@[0] != "token_type"@[0]);
    assert("username"@.len() != "exp"@.len() && "username"@.len() != "iat"@.len());
    assert("username"@.len() != "token_type"@.len() && "exp"@[0] != "token_type"@[0]);
    assert(o.contains_key("sub"@) && o["sub"@] == JsonModel::Str(c.sub));
    assert(o.contains_key("username"@) && o["username"@] == JsonModel::Str(c.username));
    assert(o.contains_key("exp"@) && o["exp"@] == JsonModel::Int(c.exp));
    assert(o.contains_key("iat"@) && o["iat"@] == JsonModel::Int(c.iat));
    assert(o.contains_key("token_type"@) && o["token_type"@] == JsonModel::Str(c.token_type));
}

fn int_field(v: &serde_json::Value, key: &str) -> (r: Option<i64>)
    ensures
        match json_model(*v) {
            JsonModel::Object(o) => match r {
                Some(i) => i64_member(o, key@) == Some(i as int),
                None => i64_member(o, key@) is None,
            },
            _ => r is None,
        },
{
    match member(v, key) {
        Some(f) => int_of(f),
        None => None,
    }
}

impl Claims {
    /// The JSON payload of the claims.
    pub fn to_json(&self) -> (r: serde_json::Value)
        ensures
            json_model(r) == claims_json(self@),
    {
        let mut e: Vec<(String, serde_json::Value)> = Vec::new();
        e.push(json_entry("sub", json_str(self.sub.as_str())));
        e.push(json_entry("username", json_str(self.username.as_str())));
        e.push(json_entry("exp", json_int(self.exp)));
        e.push(json_entry("iat", json_int(self.iat)));
        e.push(json_entry("token_type", json_str(self.token_type.as_str())));
        assert(entry_models(e@) =~= claims_entries(self@));
        proof {
            reveal_strlit("sub");
            reveal_strlit("username");
            reveal_strlit("exp");
            reveal_strlit("iat");
            reveal_strlit("token_type");
            assert("sub"@.len() == 3 && "exp"@.len() == 3 && "iat"@.len() == 3);
            assert("username"@.len() == 8 && "token_type"@.len() == 10);
            assert("sub"@[0] == 's' && "exp"@[0] == 'e' && "iat"@[0] == 'i');
            lemma_distinct_keys(claims_entries(self@));
        }
        json_object(e)
    }

    /// The claims that a JSON payload holds.
    pub fn from_json(v: &serde_json::Value) -> (r: Option<Claims>)
        ensures
            match r {
                Some(c) => claims_from_json(json_model(*v)) == Some(c@),
                None => claims_from_json(json_model(*v)) is None,
            },
    {
        if !is_object(v) {
            return None;
        }
        match (
            text_field(v, "sub"),
            text_field(v, "username"),
            int_field(v, "exp"),
            int_field(v, "iat"),
            text_field(v, "token_type"),
        ) {
            (Some(sub), Some(username), Some(exp), Some(iat), Some(token_type)) => Some(
                Claims { sub, username, exp, iat, token_type },
            ),
            _ => None,
        }
    }

    /// The user the claims name.
    pub fn user_id(&self) -> (r: Result<u128, AppError>)
        ensures
            match r {
                Ok(id) => uuid_parsed(self.sub@) == Some(id),
                Err(e) => uuid_parsed(self.sub@) is None && e is Unauthorized,
            },
    {
        match parse_id(self.sub.as_str()) {
            Some(id) => Ok(id),
            None => Err(AppError::Unauthorized(String::from_str("Invalid user_id in token"))),
        }
    }
}

/// Issues a token of kind `token_type` to `user_id` at time `now`, to hold for
/// `expiry_secs` seconds. A token that this returns proves its claims at every
/// time before its expiry, and none from then on.
pub fn create_token_at(
    user_id: u128,
    username: &str,
    secret: &str,
    expiry_secs: i64,
    token_type: &str,
    now: i64,
) -> (r: Result<String, AppError>)
    ensures
        ({
            let c = issued_claims(user_id, username@, token_type@, now as int, expiry_secs as int);
            &&& r is Ok <==> i64::MIN <= c.exp <= i64::MAX
            &&& r matches Ok(t) ==> is_issued_token(t@, c, secret@)
            &&& r matches Err(e) ==> e is Internal
        }),
{
    let exp = match now.checked_add(expiry_secs) {
        Some(x) => x,
        None => {
            return Err(AppError::Internal(String::from_str("token expiry out of range")));
        },
    };
    let claims = Claims {
        sub: id_to_string(user_id),
        username: username.to_string(),
        exp,
        iat: now,
        token_type: token_type.to_string(),
    };
    let payload = claims.to_json();
    match sign_token(&payload, secret) {
        Ok(t) => {
            proof {
                lemma_claims_json_round_trip(claims@);
                assert(claims@ == issued_claims(user_id, username@, token_type@, now as int, expiry_secs as int));
            }
            Ok(t)
        },
        Err(e) => Err(AppError::Jwt(e)),
    }
}

/// Issues a token at the current time.
pub fn create_token(user_id: u128, username: &str, secret: &str, expiry_secs: i64, token_type: &str) -> (r:
    Result<String, AppError>)
    ensures
        r matches Ok(t) ==> exists|now: int|
            now >= 0 && is_issued_token(
                t@,
                #[trigger] issued_claims(user_id, username@, token_type@, now, expiry_secs as int),
                secret@,
            ),
        r matches Err(e) ==> e is Internal,
{
    let now = unix_now();
    let r = create_token_at(user_id, username, secret, expiry_secs, token_type, now);
    proof {
        if r is Ok {
            assert(is_issued_token(
                r->Ok_0@,
                issued_claims(user_id, username@, token_type@, now as int, expiry_secs as int),
                secret@,
            ));
        }
    }
    r
}

/// The claims of a token checked at time `now`; any failure, whether of the
/// signature, of the payload or of expiry, is the same `Unauthorized`.
pub fn verify_token_at(token: &str, secret: &str, now: i64) -> (r: Result<Claims, AppError>)
    ensures
        match r {
            Ok(c) => verified_claims(token@, secret@, now as int) == Some(c@),
            Err(e) => verified_claims(token@, secret@, now as int) is None && (e matches AppError::Unauthorized(m)
                && m@ == "Invalid or expired token"@),
        },
{
    let claims = match open_token(token, secret) {
        Some(payload) => Claims::from_json(&payload),
        None => None,
    };
    match claims {
        Some(c) => if now < c.exp {
            Ok(c)
        } else {
            Err(AppError::Unauthorized(String::from_str("Invalid or expired token")))
        },
        None => Err(AppError::Unauthorized(String::from_str("Invalid or expired token"))),
    }
}

/// The claims of a token checked at the current time.
pub fn verify_token(token: &str, secret: &str) -> (r: Result<Claims, AppError>)
    ensures
        match r {
            Ok(c) => exists|now: int| #[trigger] verified_claims(token@, secret@, now) == Some(c@),
            Err(e) => e is Unauthorized,
        },
{
    let now = unix_now();
    verify_token_at(token, secret, now)
}

/// What issuing tokens needs: the signing secret and how long each kind of
/// token holds, in seconds.
pub struct TokenSettings {
    pub secret: String,
    pub access_ttl: i64,
    pub refresh_ttl: i64,
}

/// An access token and a refresh token issued together, with how long each
/// holds, in seconds.
pub struct AuthTokens {
    pub access_token: String,
    pub refresh_token: String,
    pub expires_at: i64,
    pub refresh_expires: i64,
}

/// The token that `create_token_at` issues, and what it proves: its claims
/// at every time before its expiry, nothing from then on.
pub open spec fn is_issued_token(t: Seq<char>, c: ClaimsView, secret: Seq<char>) -> bool {
    &&& i64::MIN <= c.exp <= i64::MAX
    &&& t == jwt_signed(claims_json(c), secret)
    &&& c.exp >= 0 ==> forall|at: int| #[trigger]
        verified_claims(t, secret, at) == if at < c.exp {
            Some(c)
        } else {
            None
        }
}

/// Both expiries of a pair issued at `now` fit in `i64`.
pub open spec fn pair_fits(settings: TokenSettings, now: int) -> bool {
    &&& i64::MIN <= now + settings.access_ttl <= i64::MAX
    &&& i64::MIN <= now + settings.refresh_ttl <= i64::MAX
}

/// The pair that `make_tokens_at` issues at `now`.
pub open spec fn is_issued_pair(
    p: AuthTokens,
    user_id: u128,
    username: Seq<char>,
    settings: TokenSettings,
    now: int,
) -> bool {
    &&& is_issued_token(
        p.access_token@,
        issued_claims(user_id, username, access_kind(), now, settings.access_ttl as int),
        settings.secret@,
    )
    &&& is_issued_token(
        p.refresh_token@,
        issued_claims(user_id, username, refresh_kind(), now, settings.refresh_ttl as int),
        settings.secret@,
    )
    &&& p.expires_at == settings.access_ttl
    &&& p.refresh_expires == settings.refresh_ttl
}

/// Issues an access token and a refresh token to a user at time `now`.
pub fn make_tokens_at(user_id: u128, username: &str, settings: &TokenSettings, now: i64) -> (r: Result<
    AuthTokens,
    AppError,
>)
    ensures
        r is Ok <==> pair_fits(*settings, now as int),
        r matches Ok(p) ==> is_issued_pair(p, user_id, username@, *settings, now as int),
        r matches Err(e) ==> e is Internal,
{
    let access_token = create_token_at(
        user_id,
        username,
        settings.secret.as_str(),
        settings.access_ttl,
        "access",
        now,
    )?;
    let refresh_token = create_token_at(
        user_id,
        username,
        settings.secret.as_str(),
        settings.refresh_ttl,
        "refresh",
        now,
    )?;
    Ok(AuthTokens {
        access_token,
        refresh_token,
        expires_at: settings.access_ttl,
        refresh_expires: settings.refresh_ttl,
    })
}

/// Trades a refresh token, checked at time `now`, for a new pair issued to
/// the same user. The old refresh token is not revoked.
pub fn refresh_token_at(token: &str, settings: &TokenSettings, now: i64) -> (r: Result<AuthTokens, AppError>)
    ensures
        match verified_claims(token@, settings.secret@, now as int) {
            Some(c) => if c.token_type != refresh_kind() || uuid_parsed(c.sub) is None {
                r matches Err(e) && e is Unauthorized
            } else {
                match r {
                    Ok(p) => is_issued_pair(p, uuid_parsed(c.sub)->0, c.username, *settings, now as int),
                    Err(e) => e is Internal && !pair_fits(*settings, now as int),
                }
            },
            None => r matches Err(e) && e is Unauthorized,
        },
{
    let claims = verify_token_at(token, settings.secret.as_str(), now)?;
    if !same_text(claims.token_type.as_str(), "refresh") {
        return Err(AppError::Unauthorized(String::from_str("Not a valid refresh token")));
    }
    let user_id = claims.user_id()?;
    make_tokens_at(user_id, claims.username.as_str(), settings, now)
}

/// A token issued at a time that is not before the epoch proves, at every
/// moment from its issue until its expiry, the claims it was issued with:
/// the user's id text, the user's name, its kind, its issue time and expiry.
pub proof fn lemma_issued_token_verifies(
    t: Seq<char>,
    user_id: u128,
    username: Seq<char>,
    kind: Seq<char>,
    now: int,
    ttl: int,
    secret: Seq<char>,
    at: int,
)
    requires
        is_issued_token(t, issued_claims(user_id, username, kind, now, ttl), secret),
        now >= 0,
        now <= at < now + ttl,
    ensures
        verified_claims(t, secret, at) matches Some(c) && c.sub == uuid_text(user_id) && c.username == username
            && c.token_type == kind && c.iat == now && c.exp == now + ttl,
{
    assert(verified_claims(t, secret, at) == Some(issued_claims(user_id, username, kind, now, ttl)));
}

/// A token issued at a time that is not before the epoch is refused from
/// its expiry on; one issued to last no time is refused at once.
pub proof fn lemma_issued_token_expires(
    t: Seq<char>,
    user_id: u128,
    username: Seq<char>,
    kind: Seq<char>,
    now: int,
    ttl: int,
    secret: Seq<char>,
    at: int,
)
    requires
        is_issued_token(t, issued_claims(user_id, username, kind, now, ttl), secret),
        now >= 0,
        ttl >= 0,
        at >= now + ttl,
    ensures
        verified_claims(t, secret, at) is None,
{
    assert(verified_claims(t, secret, at) is None);
}

/// A token is refused from its expiry on, whatever it holds.
pub proof fn lemma_expired_refused(token: Seq<char>, secret: Seq<char>, now: int)
    ensures
        match jwt_opened(token, secret) {
            Some(m) => match claims_from_json(m) {
                Some(c) => c.exp <= now ==> verified_claims(token, secret, now) is None,
                None => verified_claims(token, secret, now) is None,
            },
            None => verified_claims(token, secret, now) is None,
        },
{
}

} // verus!
