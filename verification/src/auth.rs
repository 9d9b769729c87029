//! The token service and the per-request guards: issuing and validating
//! signed identity claims with expiry, deriving an identity from the
//! credential header, and binding that identity to an owned resource.

use vstd::prelude::*;

use crate::error::TodosError;
use crate::models::Todo;
use crate::store::{has_todo_id, todo_index, Store};

verus! {

/// Seconds a freshly issued token stays valid: 60 minutes.
pub const TOKEN_VALIDITY_SECS: u64 = 3600;

/// The decoded payload of a signed token: subject id, username, and an
/// absolute expiry timestamp. Accepted only while the expiry is
/// strictly in the future.
#[derive(Debug)]
pub struct Claims {
    pub username: String,
    pub id: i32,
    pub exp: u64,
}

/// What a successful registration returns: the identity plus a fresh
/// token.
#[derive(Debug)]
pub struct RegisterResponse {
    pub token: String,
    pub id: i32,
    pub username: String,
}

/// A login request: username plus plaintext password.
#[derive(Debug)]
pub struct LoginBody {
    pub username: String,
    pub password: String,
}

/// Why validation rejected a token: a signature or format failure, or
/// an expiry in the past. The two are kept apart so an expired token is
/// never reported as malformed.
#[derive(Debug, Clone, Copy, PartialEq, Eq, Structural)]
pub enum TokenError {
    TokenInvalid,
    TokenExpired,
}

/// The token that signing these claims with this secret produces.
/// Names the result of jsonwebtoken's HS512 encoding, a deterministic
/// function of the arguments alone.
pub uninterp spec fn token_of(secret: Seq<u8>, username: Seq<char>, id: i32, exp: u64) -> Seq<char>;

/// Whether this string is a well-formed three-part token whose header
/// names HS512 and whose signature is the HMAC of its message under
/// this secret: the outcome of jsonwebtoken's signature check, a
/// deterministic function of the two arguments alone.
pub uninterp spec fn hs512_valid(secret: Seq<u8>, token: Seq<char>) -> bool;

/// Relies on jsonwebtoken's `encode` with HS512: HMAC signing and
/// base64 encoding are deterministic in claims and secret, so the
/// result is named `token_of`. With an HMAC key neither the signer
/// factory, nor signing, nor serializing this three-field object can
/// fail, so a token always comes back — and it verifies under the same
/// secret.
#[verifier::external_body]
fn jwt_encode(username: &str, id: i32, exp: u64, secret: &[u8]) -> (r: String)
    ensures
        r@ == token_of(secret@, username@, id, exp),
        hs512_valid(secret@, r@),
{
    let mut claims = serde_json::Map::new();
    claims.insert(String::from("username"), serde_json::Value::from(username));
    claims.insert(String::from("id"), serde_json::Value::from(id));
    claims.insert(String::from("exp"), serde_json::Value::from(exp));
    let header = jsonwebtoken::Header::new(jsonwebtoken::Algorithm::HS512);
    let key = jsonwebtoken::EncodingKey::from_secret(secret);
    jsonwebtoken::encode(&header, &serde_json::Value::Object(claims), &key)
        .expect("HS512 encoding cannot fail")
}

/// Relies on jsonwebtoken's `decode` with HS512 and expiry checking
/// turned off (the caller checks expiry itself): a token that `encode`
/// produced from these claims with this same secret passes the
/// signature check and parses back to exactly those claims, and no
/// token whose signature does not verify under the secret is ever
/// accepted.
#[verifier::external_body]
fn jwt_decode(token: &str, secret: &[u8]) -> (r: Option<Claims>)
    ensures
        r is None ==> forall|u: Seq<char>, i: i32, e: u64|
            token@ != #[trigger] token_of(secret@, u, i, e),
        r matches Some(c) ==> forall|u: Seq<char>, i: i32, e: u64|
            token@ == #[trigger] token_of(secret@, u, i, e)
                ==> c.username@ == u && c.id == i && c.exp == e,
        r is Some ==> hs512_valid(secret@, token@),
{
    let key = jsonwebtoken::DecodingKey::from_secret(secret);
    let mut validation = jsonwebtoken::Validation::new(jsonwebtoken::Algorithm::HS512);
    validation.validate_exp = false;
    let data = jsonwebtoken::decode::<serde_json::Value>(token, &key, &validation).ok()?;
    let username = data.claims.get("username")?.as_str()?;
    let id = i32::try_from(data.claims.get("id")?.as_i64()?).ok()?;
    let exp = data.claims.get("exp")?.as_u64()?;
    Some(Claims { username: String::from(username), id, exp })
}

/// Relies on std's `SystemTime` for the seconds since the Unix epoch;
/// the result depends on the clock, so nothing is stated of it. A clock
/// before the epoch is reported as the epoch itself.
#[verifier::external_body]
pub(crate) fn current_timestamp() -> u64 {
    match std::time::SystemTime::now().duration_since(std::time::UNIX_EPOCH) {
        Ok(d) => d.as_secs(),
        Err(_) => 0,
    }
}

/// Issues a token for this identity whose claims expire exactly
/// `TOKEN_VALIDITY_SECS` after the issuance time handed in; the HS512
/// signer cannot fail, so a token is always returned.
pub fn issue_token(uid: i32, uname: &str, secret: &[u8], now: u64) -> (r: String)
    requires
        now <= u64::MAX - TOKEN_VALIDITY_SECS,
    ensures
        r@ == token_of(secret@, uname@, uid, (now + TOKEN_VALIDITY_SECS) as u64),
        hs512_valid(secret@, r@),
{
    jwt_encode(uname, uid, now + TOKEN_VALIDITY_SECS, secret)
}

/// Decodes and checks a token against this secret and this validation
/// time: a signature or format failure is `TokenInvalid` — a token not
/// validly signed under the secret is never accepted; claims whose
/// expiry is not strictly in the future are `TokenExpired`; a token
/// issued from these claims with this secret and still fresh is
/// accepted and returns exactly those claims.
pub fn validate_token(token: &str, secret: &[u8], now: u64) -> (r: Result<Claims, TokenError>)
    ensures
        r matches Ok(c) ==> c.exp > now,
        r is Ok ==> hs512_valid(secret@, token@),
        !hs512_valid(secret@, token@) ==> r == Err::<Claims, TokenError>(TokenError::TokenInvalid),
        forall|u: Seq<char>, i: i32, e: u64|
            token@ == #[trigger] token_of(secret@, u, i, e) && e > now
                ==> (r matches Ok(c) && c.username@ == u && c.id == i && c.exp == e),
        forall|u: Seq<char>, i: i32, e: u64|
            token@ == #[trigger] token_of(secret@, u, i, e) && e <= now
                ==> r == Err::<Claims, TokenError>(TokenError::TokenExpired),
{
    match jwt_decode(token, secret) {
        None => Err(TokenError::TokenInvalid),
        Some(c) => {
            if c.exp > now {
                Ok(c)
            } else {
                Err(TokenError::TokenExpired)
            }
        },
    }
}

/// Law: validation accepts a freshly issued token and returns its
/// claims. The token `issue_token` signs at time `now` for an identity
/// is the encoding of claims whose expiry is `TOKEN_VALIDITY_SECS`
/// after `now` — strictly in the future — so it meets the premise
/// under which `validate_token`, run at the same time with the same
/// secret, promises `Ok` with exactly that subject id, username and
/// expiry.
pub proof fn lemma_fresh_token_accepted(secret: Seq<u8>, uname: Seq<char>, uid: i32, now: u64)
    requires
        now <= u64::MAX - TOKEN_VALIDITY_SECS,
    ensures
        ({
            let e = (now + TOKEN_VALIDITY_SECS) as u64;
            exists|e2: u64|
                token_of(secret, uname, uid, e) == #[trigger] token_of(secret, uname, uid, e2)
                    && e2 > now
        }),
{
    let e = (now + TOKEN_VALIDITY_SECS) as u64;
    assert(token_of(secret, uname, uid, e) == token_of(secret, uname, uid, e) && e > now);
}

/// Issues a token for this identity, reading the clock for the
/// issuance time. Fails only when the clock is beyond the last
/// representable issuance time.
pub fn create_jwt(uid: i32, uname: String, secret: &[u8]) -> (r: Result<String, TodosError>)
    ensures
        r matches Ok(t) ==> exists|e: u64| t@ == #[trigger] token_of(secret@, uname@, uid, e),
        r matches Ok(t) ==> hs512_valid(secret@, t@),
        r matches Err(e) ==> e == TodosError::JwtTokenCreationError,
{
    let now = current_timestamp();
    if now > u64::MAX - TOKEN_VALIDITY_SECS {
        return Err(TodosError::JwtTokenCreationError);
    }
    Ok(issue_token(uid, uname.as_str(), secret, now))
}

/// Validates a token against this secret and validation time, folding
/// both rejection kinds into the one boundary-facing error.
pub fn authorize(jwt: &str, secret: &[u8], now: u64) -> (r: Result<Claims, TodosError>)
    ensures
        r matches Ok(c) ==> c.exp > now,
        r is Ok ==> hs512_valid(secret@, jwt@),
        !hs512_valid(secret@, jwt@) ==> r == Err::<Claims, TodosError>(TodosError::JwtTokenDecodeError),
        r matches Err(e) ==> e == TodosError::JwtTokenDecodeError,
        forall|u: Seq<char>, i: i32, e: u64|
            jwt@ == #[trigger] token_of(secret@, u, i, e) && e > now
                ==> (r matches Ok(c) && c.username@ == u && c.id == i && c.exp == e),
        forall|u: Seq<char>, i: i32, e: u64|
            jwt@ == #[trigger] token_of(secret@, u, i, e) && e <= now
                ==> r == Err::<Claims, TodosError>(TodosError::JwtTokenDecodeError),
{
    match validate_token(jwt, secret, now) {
        Ok(c) => Ok(c),
        Err(_) => Err(TodosError::JwtTokenDecodeError),
    }
}

/// An authenticated identity, as taken from validated claims.
#[derive(Debug)]
pub struct AuthUser {
    pub id: i32,
    pub username: String,
}

/// Why identity extraction failed: no credential header, a header that
/// is not a visible-ASCII string, or a header whose token was rejected.
#[derive(Debug, Clone, Copy, PartialEq, Eq, Structural)]
pub enum AuthError {
    HeaderMissing,
    HeaderMalformed,
    TokenRejected,
}

impl AuthError {
    /// The message the boundary reports for this failure.
    pub fn message(&self) -> (r: &'static str)
        ensures
            *self is HeaderMissing ==> r@ == "Auth header not present."@,
            *self is HeaderMalformed ==> r@ == "Auth header is malformed or contains non-ASCII characters."@,
            *self is TokenRejected ==> r@ == "Token is invalid or expired."@,
    {
        match self {
            AuthError::HeaderMissing => "Auth header not present.",
            AuthError::HeaderMalformed => "Auth header is malformed or contains non-ASCII characters.",
            AuthError::TokenRejected => "Token is invalid or expired.",
        }
    }
}

/// The header bytes form a visible-ASCII string, the only shape a
/// credential header may take.
pub open spec fn visible_ascii(h: Seq<u8>) -> bool {
    forall|i: int| 0 <= i < h.len() ==> 32 <= #[trigger] h[i] < 127
}

/// The characters a visible-ASCII header spells.
pub open spec fn header_chars(h: Seq<u8>) -> Seq<char> {
    Seq::new(h.len(), |i: int| h[i] as char)
}

/// Relies on std's `String::from_utf8`: ASCII bytes are valid UTF-8 and
/// decode one char per byte, with the same values.
#[verifier::external_body]
fn ascii_to_string(bytes: &Vec<u8>) -> (r: String)
    requires
        forall|i: int| 0 <= i < bytes@.len() ==> #[trigger] bytes@[i] < 128,
    ensures
        r@.len() == bytes@.len(),
        forall|i: int| 0 <= i < bytes@.len() ==> r@[i] == #[trigger] bytes@[i] as char,
{
    String::from_utf8(bytes.clone()).unwrap()
}

/// Whether every header byte is visible ASCII.
#[verifier::loop_isolation(false)]
fn is_visible_ascii(h: &Vec<u8>) -> (r: bool)
    ensures
        r == visible_ascii(h@),
{
    let mut i: usize = 0;
    while i < h.len()
        invariant
            i <= h@.len(),
            forall|j: int| 0 <= j < i ==> 32 <= #[trigger] h@[j] < 127,
        decreases h@.len() - i,
    {
        if h[i] < 32 || h[i] >= 127 {
            return false;
        }
        i = i + 1;
    }
    true
}

impl AuthUser {
    /// Derives an authenticated identity from the credential header:
    /// an absent header, a header that is not visible ASCII, and a
    /// header whose token fails validation each fail with their own
    /// kind; otherwise the identity is taken from the claims. A header
    /// spelling a fresh token signed with this secret is always
    /// accepted.
    pub fn from_header(header: Option<&Vec<u8>>, secret: &[u8], now: u64) -> (r: Result<AuthUser, AuthError>)
        ensures
            header is None ==> r == Err::<AuthUser, AuthError>(AuthError::HeaderMissing),
            header matches Some(h) && !visible_ascii(h@)
                ==> r == Err::<AuthUser, AuthError>(AuthError::HeaderMalformed),
            header matches Some(h) && visible_ascii(h@) && r is Err
                ==> r == Err::<AuthUser, AuthError>(AuthError::TokenRejected),
            forall|u: Seq<char>, i: i32, e: u64|
                (header matches Some(h) && visible_ascii(h@)
                    && header_chars(h@) == #[trigger] token_of(secret@, u, i, e) && e > now)
                    ==> (r matches Ok(a) && a.username@ == u && a.id == i),
            r is Ok ==> (header matches Some(h) && visible_ascii(h@)
                && hs512_valid(secret@, header_chars(h@))),
    {
        match header {
            None => Err(AuthError::HeaderMissing),
            Some(h) => {
                if !is_visible_ascii(h) {
                    return Err(AuthError::HeaderMalformed);
                }
                let s = ascii_to_string(h);
                proof {
                    assert(s@ =~= header_chars(h@));
                }
                match validate_token(s.as_str(), secret, now) {
                    Ok(c) => Ok(AuthUser { id: c.id, username: c.username }),
                    Err(_) => Err(AuthError::TokenRejected),
                }
            },
        }
    }
}

/// The outcome of the ownership guard: the looked-up resource when it
/// exists and is owned by the caller, and otherwise an error that does
/// not reveal which of the two checks failed.
pub struct TodoIsOfUser {
    pub result: Result<Todo, TodosError>,
}

impl TodoIsOfUser {
    /// Looks the resource up by id and binds it to the authenticated
    /// identity: a missing record and a record owned by someone else
    /// fail with the same `TodoNotFoundError`, deliberately
    /// indistinguishable so existence of another user's resource is
    /// never confirmed.
    pub fn check(user: &AuthUser, todo_id: i32, store: &Store) -> (r: TodoIsOfUser)
        requires
            store.wf(),
        ensures
            (r.result is Ok) <==> (has_todo_id(store.todos@, todo_id as int)
                && store.todos@[todo_index(store.todos@, todo_id as int)].user_id == user.id),
            r.result matches Ok(t) ==> t == store.todos@[todo_index(store.todos@, todo_id as int)],
            r.result matches Err(e) ==> e == TodosError::TodoNotFoundError,
    {
        match store.find_todo_by_id(todo_id) {
            None => TodoIsOfUser { result: Err(TodosError::TodoNotFoundError) },
            Some(t) => {
                proof {
                    let j = choose|j: int|
                        0 <= j < store.todos@.len() && store.todos@[j] == t && t.id == todo_id;
                    let k = todo_index(store.todos@, todo_id as int);
                    assert(0 <= k < store.todos@.len() && store.todos@[k].id == todo_id);
                    assert(j == k);
                }
                if t.user_id == user.id {
                    TodoIsOfUser { result: Ok(t) }
                } else {
                    TodoIsOfUser { result: Err(TodosError::TodoNotFoundError) }
                }
            },
        }
    }
}

} // verus!
