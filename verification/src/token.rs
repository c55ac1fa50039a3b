//! Session tokens: the claims a token carries, their JSON payload, and the
//! HS256 JSON Web Tokens that carry it.

use vstd::prelude::*;

use crate::auth::AuthError;
use crate::json::{
    member_text, members_text, object_text, push_json_string, serde_json_string, JsonMember,
};
use crate::text::{dec_digits, int_text, push_char, push_decimal, push_int};

verus! {

/// How long a session token stays valid: seven days, in seconds.
pub const TOKEN_LIFETIME_SECS: i64 = 604800;

/// What a session token says about its holder.
pub struct Claims {
    /// Expiry, in seconds since the Unix epoch.
    pub exp: usize,
    /// Issue time, in seconds since the Unix epoch.
    pub iat: usize,
    pub user_id: i32,
    pub user_name: String,
}

/// The members of a token's claims, in declaration order.
pub open spec fn claims_members(exp: nat, iat: nat, user_id: int, user_name: Seq<char>) -> Seq<
    JsonMember,
> {
    seq![
        JsonMember::Number("exp"@, exp as int),
        JsonMember::Number("iat"@, iat as int),
        JsonMember::Number("user_id"@, user_id),
        JsonMember::Text("user_name"@, user_name),
    ]
}

/// The JSON object of a token's claims: the four fields in declaration
/// order, numbers in decimal, the name as a JSON string.
pub open spec fn claims_text(exp: nat, iat: nat, user_id: int, user_name: Seq<char>) -> Seq<char> {
    object_text(claims_members(exp, iat, user_id, user_name))
}

/// The JSON payload of `c`.
pub open spec fn claims_payload(c: Claims) -> Seq<char> {
    claims_text(c.exp as nat, c.iat as nat, c.user_id as int, c.user_name@)
}

/// The payload of the token issued at `now` to the user `user_id` named `user_name`.
pub open spec fn issued_payload(user_id: int, user_name: Seq<char>, now: int) -> Seq<char> {
    claims_text(
        ((now + TOKEN_LIFETIME_SECS) as usize) as nat,
        (now as usize) as nat,
        user_id,
        user_name,
    )
}

/// Whether `c` is one of the characters that JSON counts as white space.
pub open spec fn is_json_space(c: char) -> bool {
    c == ' ' || c == '\t' || c == '\n' || c == '\r'
}

/// `p` neither starts nor ends with JSON white space.
pub open spec fn json_unpadded(p: Seq<char>) -> bool {
    p.len() > 0 ==> !is_json_space(p[0]) && !is_json_space(p[p.len() - 1])
}

/// How many `.` characters `s` holds.
pub open spec fn dot_count(s: Seq<char>) -> nat
    decreases s.len(),
{
    if s.len() == 0 {
        0
    } else {
        dot_count(s.drop_last()) + if s.last() == '.' {
            1nat
        } else {
            0nat
        }
    }
}

/// The token that `jsonwebtoken::encode` makes, with the default header
/// (HS256, type JWT) and an HMAC key made from `secret`, for the JSON text
/// `payload` taken as it stands; `None` where `payload` is not one JSON value.
pub uninterp spec fn jwt_hs256_token(payload: Seq<char>, secret: Seq<u8>) -> Option<Seq<char>>;

#[verifier::external_type_specification]
#[verifier::external_body]
pub struct ExJwtError(jsonwebtoken::errors::Error);

/// Calls `serde_json::value::RawValue::from_string` on `payload`, then
/// `jsonwebtoken::encode` with `Header::default()` (HS256) and
/// `EncodingKey::from_secret(secret)`. The contract claims that the result is
/// a function of the two arguments (HMAC and base64 involve no chance), and
/// that it fails exactly where `payload` is not one JSON value: the HMAC
/// signer of the crate cannot fail. A flat object of string keys with
/// decimal numbers or `serde_json` string literals as values is one JSON
/// value, so it is accepted.
#[verifier::external_body]
fn encode_hs256(payload: &str, secret: &[u8]) -> (r: Result<String, jsonwebtoken::errors::Error>)
    ensures
        match r {
            Ok(t) => jwt_hs256_token(payload@, secret@) == Some(t@),
            Err(_) => jwt_hs256_token(payload@, secret@) is None,
        },
        forall|ms: Seq<JsonMember>| #[trigger] object_text(ms) == payload@ ==> r is Ok,
{
    let raw = serde_json::value::RawValue::from_string(payload.to_string())?;
    jsonwebtoken::encode(
        &jsonwebtoken::Header::default(),
        &raw,
        &jsonwebtoken::EncodingKey::from_secret(secret),
    )
}

/// Calls `jsonwebtoken::decode` with `DecodingKey::from_secret(secret)` and
/// `Validation::new(Algorithm::HS256)`, keeping the claims as raw JSON text.
/// Whether it succeeds depends on the clock (the `exp` claim is checked
/// against it), so only this is claimed: a token that `encode_hs256` made for
/// a payload without surrounding white space under the same secret, if it is
/// accepted, gives back that payload exactly; and a text with fewer than two
/// `.` is refused whatever the time (it does not split into header, payload
/// and signature). What other tokens give is not stated.
#[verifier::external_body]
fn decode_hs256(token: &str, secret: &[u8]) -> (r: Result<String, jsonwebtoken::errors::Error>)
    ensures
        dot_count(token@) < 2 ==> r is Err,
        forall|p: Seq<char>|
            #[trigger] jwt_hs256_token(p, secret@) == Some(token@) && json_unpadded(p) ==> (
            r matches Ok(q) ==> q@ == p),
{
    let data = jsonwebtoken::decode::<Box<serde_json::value::RawValue>>(
        token,
        &jsonwebtoken::DecodingKey::from_secret(secret),
        &jsonwebtoken::Validation::new(jsonwebtoken::Algorithm::HS256),
    )?;
    Ok(data.claims.get().to_string())
}

/// The text of a `jsonwebtoken` error (its `Display`). Nothing is stated of it.
#[verifier::external_body]
fn jwt_error_text(e: &jsonwebtoken::errors::Error) -> String {
    e.to_string()
}

/// The claims of a token issued at `now` (seconds since the epoch) to the
/// user `user_id` named `user_name`: it expires seven days later.
pub fn claims_for(user_id: i32, user_name: String, now: i64) -> (c: Claims)
    requires
        now <= i64::MAX - TOKEN_LIFETIME_SECS,
    ensures
        c.iat == now as usize,
        c.exp == (now + TOKEN_LIFETIME_SECS) as usize,
        c.user_id == user_id,
        c.user_name@ == user_name@,
        claims_payload(c) == issued_payload(user_id as int, user_name@, now as int),
{
    let exp = now + TOKEN_LIFETIME_SECS;
    Claims {
        exp: #[verifier::truncate] (exp as usize),
        iat: #[verifier::truncate] (now as usize),
        user_id,
        user_name,
    }
}

/// The JSON payload of `c`.
pub fn claims_to_json(c: &Claims) -> (s: String)
    ensures
        s@ == claims_payload(*c),
{
    let ghost ms = claims_members(c.exp as nat, c.iat as nat, c.user_id as int, c.user_name@);
    let mut s = String::new();
    push_char(&mut s, '{');
    push_json_string(&mut s, "exp");
    push_char(&mut s, ':');
    push_decimal(&mut s, c.exp as u64);
    let ghost m1 = s@;
    push_char(&mut s, ',');
    push_json_string(&mut s, "iat");
    push_char(&mut s, ':');
    push_decimal(&mut s, c.iat as u64);
    let ghost m2 = s@;
    push_char(&mut s, ',');
    push_json_string(&mut s, "user_id");
    push_char(&mut s, ':');
    push_int(&mut s, c.user_id as i64);
    let ghost m3 = s@;
    push_char(&mut s, ',');
    push_json_string(&mut s, "user_name");
    push_char(&mut s, ':');
    push_json_string(&mut s, c.user_name.as_str());
    let ghost m4 = s@;
    push_char(&mut s, '}');
    proof {
        assert(ms.take(1).len() == 1);
        assert(m1 =~= seq!['{'] + members_text(ms.take(1))) by {
            assert(ms.take(1)[0] == ms[0]);
            assert(int_text(c.exp as int) == dec_digits(c.exp as nat));
        }
        assert(ms.take(2).drop_last() =~= ms.take(1));
        assert(m2 =~= seq!['{'] + members_text(ms.take(2))) by {
            assert(int_text(c.iat as int) == dec_digits(c.iat as nat));
        }
        assert(ms.take(3).drop_last() =~= ms.take(2));
        assert(m3 =~= seq!['{'] + members_text(ms.take(3)));
        assert(ms.take(4).drop_last() =~= ms.take(3));
        assert(ms.take(4) =~= ms);
        assert(m4 =~= seq!['{'] + members_text(ms));
        assert(s@ =~= object_text(ms));
    }
    s
}

/// A claims payload starts with `{` and ends with `}`.
pub proof fn lemma_claims_text_unpadded(exp: nat, iat: nat, user_id: int, user_name: Seq<char>)
    ensures
        json_unpadded(claims_text(exp, iat, user_id, user_name)),
{
    let ms = claims_members(exp, iat, user_id, user_name);
    let p = claims_text(exp, iat, user_id, user_name);
    assert(p =~= seq!['{'] + members_text(ms) + seq!['}']);
    assert(p[0] == '{');
    assert(p[p.len() - 1] == '}');
}

/// Signs `payload` into a token, or says why the signer refused it.
fn sign_payload(payload: &str, secret: &[u8]) -> (r: Result<String, AuthError>)
    ensures
        match r {
            Ok(t) => jwt_hs256_token(payload@, secret@) == Some(t@),
            Err(e) => jwt_hs256_token(payload@, secret@) is None && e is TokenEncoding,
        },
        forall|ms: Seq<JsonMember>| #[trigger] object_text(ms) == payload@ ==> r is Ok,
{
    match encode_hs256(payload, secret) {
        Ok(t) => Ok(t),
        Err(e) => Err(AuthError::TokenEncoding(jwt_error_text(&e))),
    }
}

/// The session token for user `user_id` named `user_name`, issued at `now`
/// (seconds since the epoch). The claims' JSON is always one JSON value, so
/// signing it succeeds.
pub fn create_token(user_id: i32, user_name: String, now: i64, secret: &[u8]) -> (r: Result<
    String,
    AuthError,
>)
    requires
        now <= i64::MAX - TOKEN_LIFETIME_SECS,
    ensures
        r matches Ok(t) && jwt_hs256_token(
            issued_payload(user_id as int, user_name@, now as int),
            secret@,
        ) == Some(t@),
{
    let claims = claims_for(user_id, user_name, now);
    let payload = claims_to_json(&claims);
    let ghost ms = claims_members(claims.exp as nat, claims.iat as nat, user_id as int, claims.user_name@);
    assert(object_text(ms) == payload@);
    sign_payload(payload.as_str(), secret)
}

/// `r`, what reading `token` under `secret` gave, agrees with the claims the
/// token was issued with: for every claims payload that signs into `token`,
/// an accepted token gives back exactly that payload.
pub open spec fn reads_back(token: Seq<char>, secret: Seq<u8>, r: Option<String>) -> bool {
    forall|exp: nat, iat: nat, user_id: int, user_name: Seq<char>|
        #[trigger] jwt_hs256_token(claims_text(exp, iat, user_id, user_name), secret) == Some(token)
            ==> (r matches Some(q) ==> q@ == claims_text(exp, iat, user_id, user_name))
}

/// The claims payload of `token` if it is a valid, unexpired HS256 token
/// under `secret`; `None` for every other token. A token issued by this
/// library for some claims gives back exactly their payload, if accepted;
/// a text with fewer than two `.` is never accepted.
pub fn is_valid_token(token: &str, secret: &[u8]) -> (r: Option<String>)
    ensures
        reads_back(token@, secret@, r),
        dot_count(token@) < 2 ==> r is None,
{
    let r = decode_hs256(token, secret);
    assert forall|exp: nat, iat: nat, user_id: int, user_name: Seq<char>|
        #[trigger] jwt_hs256_token(claims_text(exp, iat, user_id, user_name), secret@) == Some(
            token@,
        ) implies (r matches Ok(q) ==> q@ == claims_text(exp, iat, user_id, user_name)) by {
        lemma_claims_text_unpadded(exp, iat, user_id, user_name);
    }
    match r {
        Ok(q) => Some(q),
        Err(_) => None,
    }
}

/// The claims payload is the four members in order, each key and the user's
/// name written as `serde_json` writes a string literal, the numbers in
/// decimal: in particular the name is carried whole, as given.
pub proof fn lemma_claims_text_members(exp: nat, iat: nat, user_id: int, user_name: Seq<char>)
    ensures
        claims_text(exp, iat, user_id, user_name) == seq!['{'] + serde_json_string("exp"@)
            + seq![':'] + int_text(exp as int) + seq![','] + serde_json_string("iat"@) + seq![
            ':',
        ] + int_text(iat as int) + seq![','] + serde_json_string("user_id"@) + seq![':']
            + int_text(user_id) + seq![','] + serde_json_string("user_name"@) + seq![':']
            + serde_json_string(user_name) + seq!['}'],
{
    let ms = claims_members(exp, iat, user_id, user_name);
    assert(ms.take(1).len() == 1 && ms.take(1)[0] == ms[0]);
    assert(ms.take(2).drop_last() =~= ms.take(1));
    assert(ms.take(3).drop_last() =~= ms.take(2));
    assert(ms.drop_last() =~= ms.take(3));
    assert(members_text(ms.take(1)) == member_text(ms[0]));
    assert(members_text(ms.take(2)) == members_text(ms.take(1)) + seq![','] + member_text(ms[1]));
    assert(members_text(ms.take(3)) == members_text(ms.take(2)) + seq![','] + member_text(ms[2]));
    assert(members_text(ms) == members_text(ms.take(3)) + seq![','] + member_text(ms[3]));
    assert(claims_text(exp, iat, user_id, user_name) =~= seq!['{'] + serde_json_string("exp"@)
        + seq![':'] + int_text(exp as int) + seq![','] + serde_json_string("iat"@) + seq![':']
        + int_text(iat as int) + seq![','] + serde_json_string("user_id"@) + seq![':'] + int_text(
        user_id,
    ) + seq![','] + serde_json_string("user_name"@) + seq![':'] + serde_json_string(user_name)
        + seq!['}']);
}

/// The payload of a token issued at `now` carries the user's id and whole
/// name, the issue time `now` and the expiry seven days later (both as
/// `usize`), in that JSON form.
pub proof fn lemma_issued_payload_members(user_id: int, user_name: Seq<char>, now: int)
    ensures
        issued_payload(user_id, user_name, now) == seq!['{'] + serde_json_string("exp"@) + seq![
            ':',
        ] + int_text(((now + 604800) as usize) as int) + seq![','] + serde_json_string("iat"@)
            + seq![':'] + int_text((now as usize) as int) + seq![','] + serde_json_string(
            "user_id"@,
        ) + seq![':'] + int_text(user_id) + seq![','] + serde_json_string("user_name"@) + seq![
            ':',
        ] + serde_json_string(user_name) + seq!['}'],
{
    lemma_claims_text_members(
        ((now + TOKEN_LIFETIME_SECS) as usize) as nat,
        (now as usize) as nat,
        user_id,
        user_name,
    );
}

/// The payload of claims `c` carries every field of `c` as it stands, the
/// name whole.
pub proof fn lemma_claims_payload_members(c: Claims)
    ensures
        claims_payload(c) == seq!['{'] + serde_json_string("exp"@) + seq![':'] + int_text(
            c.exp as int,
        ) + seq![','] + serde_json_string("iat"@) + seq![':'] + int_text(c.iat as int) + seq![
            ',',
        ] + serde_json_string("user_id"@) + seq![':'] + int_text(c.user_id as int) + seq![',']
            + serde_json_string("user_name"@) + seq![':'] + serde_json_string(c.user_name@)
            + seq!['}'],
{
    lemma_claims_text_members(c.exp as nat, c.iat as nat, c.user_id as int, c.user_name@);
}

/// A session token issued by this library, when it is accepted, gives back
/// the claims it was issued with.
pub proof fn lemma_issued_token_reads_back(
    user_id: i32,
    user_name: Seq<char>,
    now: int,
    secret: Seq<u8>,
    token: Seq<char>,
    r: Option<String>,
)
    requires
        jwt_hs256_token(issued_payload(user_id as int, user_name, now), secret) == Some(token),
        reads_back(token, secret, r),
    ensures
        r matches Some(q) ==> q@ == issued_payload(user_id as int, user_name, now),
{
    let exp = ((now + TOKEN_LIFETIME_SECS) as usize) as nat;
    let iat = (now as usize) as nat;
    assert(jwt_hs256_token(claims_text(exp, iat, user_id as int, user_name), secret) == Some(token));
}

} // verus!
