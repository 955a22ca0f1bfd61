//! Signed, time-boxed tokens.
//!
//! A token is a compact JWT signed with HMAC-SHA256. Its payload holds three
//! claims: `sub`, the account's identifier in text form; `iss`, the issuer;
//! and `exp`, the second at which it stops being valid. Signing, signature
//! checking and payload parsing are the `jsonwebtoken` crate's; which tokens
//! count as valid at a given time is decided here.
//!
//! Two key domains share this module. Access tokens are signed with one
//! service-wide secret; verification tokens with the secret of the account
//! they verify. Because the right key for a verification token is known only
//! once its subject is, `peek_subject` reads the subject of a token without
//! checking anything. What it returns establishes no trust: it only says
//! whose secret `verify_token` is to be run with.

use crate::clock::unix_now;
use crate::text::text_of;
use crate::user_id::{format_user_id, parse_user_id, parsed_user_id, user_id_text};
use jsonwebtoken::errors::ErrorKind;
use jsonwebtoken::{decode, encode, Algorithm, DecodingKey, EncodingKey, Header, Validation};
use serde_json::Value;
use vstd::prelude::*;

verus! {

/// Seconds for which a token is valid, counted from its issuance. Access and
/// verification tokens share it.
pub const TOKEN_LIFETIME_SECS: u64 = 300;

/// The payload of a token.
#[derive(Clone, Debug, PartialEq, Eq)]
pub struct Claims {
    /// The account the token speaks for.
    pub sub: u128,
    /// Who issued it.
    pub iss: String,
    /// The first second, in Unix time, at which it is no longer valid.
    pub exp: u64,
}

/// `Claims` as contracts see it: texts in place of strings.
pub struct ClaimsView {
    pub sub: u128,
    pub iss: Seq<char>,
    pub exp: u64,
}

impl View for Claims {
    type V = ClaimsView;

    open spec fn view(&self) -> ClaimsView {
        ClaimsView { sub: self.sub, iss: self.iss@, exp: self.exp }
    }
}

/// Why a token was turned down. Callers answer all three alike; the
/// distinction is kept for logs.
#[derive(Clone, Copy, Debug, PartialEq, Eq)]
pub enum TokenFailure {
    /// The signature does not belong to the key it was checked with.
    SignatureInvalid,
    /// The token was valid once; its time is over.
    Expired,
    /// The text is no token, or its payload lacks a claim or holds one of the
    /// wrong kind.
    Malformed,
}

/// The signing primitive refused to produce a token.
#[derive(Clone, Copy, Debug, PartialEq, Eq)]
pub struct SigningError;

/// The three claims as they stand in a decoded payload, each absent where the
/// payload has no member of that name or one of another JSON type.
#[derive(Clone, Debug, PartialEq, Eq)]
pub struct Payload {
    pub sub: Option<String>,
    pub iss: Option<String>,
    pub exp: Option<u64>,
}

/// `Payload` as contracts see it: texts in place of strings.
pub struct PayloadView {
    pub sub: Option<Seq<char>>,
    pub iss: Option<Seq<char>>,
    pub exp: Option<u64>,
}

impl View for Payload {
    type V = PayloadView;

    open spec fn view(&self) -> PayloadView {
        PayloadView { sub: text_of(self.sub), iss: text_of(self.iss), exp: self.exp }
    }
}

/// `jsonwebtoken::errors::Error`, carried as it comes and never looked
/// into.
#[verifier::external_type_specification]
#[verifier::external_body]
pub struct ExJwtError(jsonwebtoken::errors::Error);

/// The token that `jsonwebtoken::encode` makes of the three claims under the
/// default header and an HMAC key, or `None` where it makes none.
pub uninterp spec fn hs256_token(sub: Seq<char>, iss: Seq<char>, exp: u64, key: Seq<char>) -> Option<
    Seq<char>,
>;

/// What `jsonwebtoken::decode` finds in a token when it checks the HS256
/// signature against `key` and leaves the expiry alone: the payload's
/// claims, or the reason for which it turned the token down.
pub uninterp spec fn hs256_payload(token: Seq<char>, key: Seq<char>) -> Result<
    PayloadView,
    TokenFailure,
>;

/// What `jsonwebtoken::decode` finds in a token when it checks neither
/// signature nor expiry: the payload's claims, or `None` where the text does
/// not parse as a token.
pub uninterp spec fn unverified_payload(token: Seq<char>) -> Option<PayloadView>;

/// The payload that a token made from these claims carries.
pub open spec fn payload_of(sub: Seq<char>, iss: Seq<char>, exp: u64) -> PayloadView {
    PayloadView { sub: Some(sub), iss: Some(iss), exp: Some(exp) }
}

/// Calls `jsonwebtoken::encode` with the default header (HS256), a JSON
/// object of the three claims, and `EncodingKey::from_secret(key)`.
///
/// Trusted: the result is a function of the arguments alone; and a token that
/// comes back decodes to the claims it was made from, both under the key it
/// was signed with and without any check.
#[verifier::external_body]
fn encode_hs256(sub: &str, iss: &str, exp: u64, key: &str) -> (res: Result<
    String,
    jsonwebtoken::errors::Error,
>)
    ensures
        match res {
            Ok(token) => hs256_token(sub@, iss@, exp, key@) == Some(token@),
            Err(_) => hs256_token(sub@, iss@, exp, key@) is None,
        },
        res matches Ok(token) ==> (hs256_payload(token@, key@) matches Ok(payload) && payload
            == payload_of(sub@, iss@, exp)),
        res matches Ok(token) ==> unverified_payload(token@) == Some(payload_of(sub@, iss@, exp)),
{
    let mut claims = serde_json::Map::new();
    claims.insert("sub".to_owned(), Value::from(sub));
    claims.insert("iss".to_owned(), Value::from(iss));
    claims.insert("exp".to_owned(), Value::from(exp));
    encode(&Header::default(), &claims, &EncodingKey::from_secret(key.as_bytes()))
}

/// Calls `jsonwebtoken::decode` with `DecodingKey::from_secret(key)` and a
/// validation that allows HS256 only and does not look at the clock, then
/// picks the three claims out of the payload.
///
/// Trusted: the result is a function of token and key alone. A signature
/// that does not match comes back as `SignatureInvalid`, every other refusal
/// as `Malformed`.
#[verifier::external_body]
fn decode_hs256(token: &str, key: &str) -> (res: Result<Payload, TokenFailure>)
    ensures
        payload_result_view(res) == hs256_payload(token@, key@),
{
    let mut validation = Validation::new(Algorithm::HS256);
    validation.validate_exp = false;
    match decode::<Value>(token, &DecodingKey::from_secret(key.as_bytes()), &validation) {
        Ok(data) => Ok(Payload {
            sub: data.claims.get("sub").and_then(Value::as_str).map(str::to_owned),
            iss: data.claims.get("iss").and_then(Value::as_str).map(str::to_owned),
            exp: data.claims.get("exp").and_then(Value::as_u64),
        }),
        Err(e) => match e.kind() {
            ErrorKind::InvalidSignature => Err(TokenFailure::SignatureInvalid),
            _ => Err(TokenFailure::Malformed),
        },
    }
}

/// Calls `jsonwebtoken::decode` with signature validation switched off and a
/// validation that does not look at the clock, then picks the three claims
/// out of the payload.
///
/// Trusted: the result is a function of the token alone.
#[verifier::external_body]
fn decode_unverified(token: &str) -> (res: Option<Payload>)
    ensures
        match res {
            Some(payload) => unverified_payload(token@) == Some(payload@),
            None => unverified_payload(token@) is None,
        },
{
    let mut validation = Validation::new(Algorithm::HS256);
    validation.validate_exp = false;
    validation.insecure_disable_signature_validation();
    let data = decode::<Value>(token, &DecodingKey::from_secret(&[]), &validation).ok()?;
    Some(Payload {
        sub: data.claims.get("sub").and_then(Value::as_str).map(str::to_owned),
        iss: data.claims.get("iss").and_then(Value::as_str).map(str::to_owned),
        exp: data.claims.get("exp").and_then(Value::as_u64),
    })
}

/// The claims of a token issued at `issued_at`: it expires one lifetime
/// later. There are none where that second lies beyond what `exp` can hold.
pub open spec fn claims_issued_at(sub: u128, iss: Seq<char>, issued_at: u64) -> Option<ClaimsView> {
    if issued_at + TOKEN_LIFETIME_SECS <= u64::MAX {
        Some(ClaimsView { sub, iss, exp: (issued_at + TOKEN_LIFETIME_SECS) as u64 })
    } else {
        None
    }
}

/// The token that carries `claims` under `key`, if signing yields one.
pub open spec fn token_for(claims: ClaimsView, key: Seq<char>) -> Option<Seq<char>> {
    hs256_token(user_id_text(claims.sub), claims.iss, claims.exp, key)
}

/// The claims that a payload amounts to: all three must be there, and `sub`
/// must read as an account identifier.
pub open spec fn claims_of(payload: PayloadView) -> Option<ClaimsView> {
    if payload.sub is Some && payload.iss is Some && payload.exp is Some && parsed_user_id(
        payload.sub->0,
    ) is Some {
        Some(
            ClaimsView {
                sub: parsed_user_id(payload.sub->0)->0,
                iss: payload.iss->0,
                exp: payload.exp->0,
            },
        )
    } else {
        None
    }
}

/// Whether claims are still good at `now`. A token is expired from the very
/// second its `exp` names.
pub open spec fn in_time(claims: ClaimsView, now: u64) -> Result<ClaimsView, TokenFailure> {
    if now < claims.exp {
        Ok(claims)
    } else {
        Err(TokenFailure::Expired)
    }
}

/// The verdict on a decoded token at `now`.
pub open spec fn judged(decoded: Result<PayloadView, TokenFailure>, now: u64) -> Result<
    ClaimsView,
    TokenFailure,
> {
    match decoded {
        Err(failure) => Err(failure),
        Ok(payload) => match claims_of(payload) {
            None => Err(TokenFailure::Malformed),
            Some(claims) => in_time(claims, now),
        },
    }
}

/// Full verification of `token` under `key` at `now`.
pub open spec fn verified(token: Seq<char>, key: Seq<char>, now: u64) -> Result<
    ClaimsView,
    TokenFailure,
> {
    judged(hs256_payload(token, key), now)
}

/// The subject that a token claims, read without any check.
pub open spec fn peeked_subject(token: Seq<char>) -> Result<u128, TokenFailure> {
    match unverified_payload(token) {
        None => Err(TokenFailure::Malformed),
        Some(payload) => match claims_of(payload) {
            None => Err(TokenFailure::Malformed),
            Some(claims) => Ok(claims.sub),
        },
    }
}

/// What issuing promises of a token made from `claims` under `key`: it
/// verifies under `key` at every second before `claims.exp` and is expired
/// from that second on, and it names `claims.sub` to whoever peeks at it.
pub open spec fn holds_as_issued(token: Seq<char>, key: Seq<char>, claims: ClaimsView) -> bool {
    &&& forall|now: u64| #[trigger] verified(token, key, now) == in_time(claims, now)
    &&& peeked_subject(token) matches Ok(subject) && subject == claims.sub
}

/// A verification result as contracts see it.
pub open spec fn claims_result_view(res: Result<Claims, TokenFailure>) -> Result<
    ClaimsView,
    TokenFailure,
> {
    match res {
        Ok(claims) => Ok(claims@),
        Err(failure) => Err(failure),
    }
}

/// A decoding result as contracts see it.
pub open spec fn payload_result_view(res: Result<Payload, TokenFailure>) -> Result<
    PayloadView,
    TokenFailure,
> {
    match res {
        Ok(payload) => Ok(payload@),
        Err(failure) => Err(failure),
    }
}

/// Builds the claims of a token issued at `issued_at`.
pub fn new_claims(sub: u128, iss: &str, issued_at: u64) -> (res: Option<Claims>)
    ensures
        match res {
            Some(claims) => claims_issued_at(sub, iss@, issued_at) == Some(claims@),
            None => claims_issued_at(sub, iss@, issued_at) is None,
        },
{
    match issued_at.checked_add(TOKEN_LIFETIME_SECS) {
        Some(exp) => Some(Claims { sub, iss: iss.to_owned(), exp }),
        None => None,
    }
}

/// Turns a decoded payload into claims, or into `Malformed` where a claim is
/// missing or the subject is no account identifier.
pub fn claims_from_payload(payload: Payload) -> (res: Result<Claims, TokenFailure>)
    ensures
        match res {
            Ok(claims) => claims_of(payload@) == Some(claims@),
            Err(failure) => failure == TokenFailure::Malformed && claims_of(payload@) is None,
        },
{
    let Payload { sub, iss, exp } = payload;
    match (sub, iss, exp) {
        (Some(sub), Some(iss), Some(exp)) => match parse_user_id(sub.as_str()) {
            Some(id) => Ok(Claims { sub: id, iss, exp }),
            None => Err(TokenFailure::Malformed),
        },
        _ => Err(TokenFailure::Malformed),
    }
}

/// Accepts claims that have time left at `now` and turns down those whose
/// `exp` is `now` or earlier.
pub fn check_expiry(claims: Claims, now: u64) -> (res: Result<Claims, TokenFailure>)
    ensures
        claims_result_view(res) == in_time(claims@, now),
        res matches Ok(kept) ==> kept == claims,
{
    if now < claims.exp {
        Ok(claims)
    } else {
        Err(TokenFailure::Expired)
    }
}

/// Judges the outcome of a signature-checked decoding at `now`: a failure
/// stays what it is, a payload must amount to claims, and the claims must
/// have time left.
pub fn judge(decoded: Result<Payload, TokenFailure>, now: u64) -> (res: Result<Claims, TokenFailure>)
    ensures
        claims_result_view(res) == judged(payload_result_view(decoded), now),
{
    match decoded {
        Err(failure) => Err(failure),
        Ok(payload) => match claims_from_payload(payload) {
            Err(failure) => Err(failure),
            Ok(claims) => check_expiry(claims, now),
        },
    }
}

/// Signs `claims` with `key`.
///
/// A token that comes back holds as issued: it verifies under `key` for as
/// long as `now` is before `claims.exp`, is expired from that second on, and
/// names `claims.sub` to whoever peeks at it.
pub fn issue_token(claims: &Claims, key: &str) -> (res: Result<String, SigningError>)
    ensures
        match res {
            Ok(token) => token_for(claims@, key@) == Some(token@),
            Err(_) => token_for(claims@, key@) is None,
        },
        res matches Ok(token) ==> holds_as_issued(token@, key@, claims@),
{
    let sub = format_user_id(claims.sub);
    match encode_hs256(sub.as_str(), claims.iss.as_str(), claims.exp, key) {
        Ok(token) => {
            proof {
                let payload = payload_of(sub@, claims.iss@, claims.exp);
                assert(claims_of(payload) == Some(claims@));
            }
            Ok(token)
        },
        Err(_) => Err(SigningError),
    }
}

/// Issues a token for `sub` at `issued_at`, valid for one lifetime.
pub fn issue_token_at(sub: u128, iss: &str, key: &str, issued_at: u64) -> (res: Result<
    String,
    SigningError,
>)
    ensures
        match res {
            Ok(token) => claims_issued_at(sub, iss@, issued_at) matches Some(claims) && token_for(
                claims,
                key@,
            ) == Some(token@),
            Err(_) => claims_issued_at(sub, iss@, issued_at) matches Some(claims) ==> token_for(
                claims,
                key@,
            ) is None,
        },
        res matches Ok(token) ==> holds_as_issued(
            token@,
            key@,
            claims_issued_at(sub, iss@, issued_at)->0,
        ),
{
    match new_claims(sub, iss, issued_at) {
        Some(claims) => issue_token(&claims, key),
        None => Err(SigningError),
    }
}

/// Verifies `token` under `key` at `now`: the signature must be `key`'s, the
/// payload must hold the three claims, and `now` must be before `exp`.
pub fn verify_token_at(token: &str, key: &str, now: u64) -> (res: Result<Claims, TokenFailure>)
    ensures
        claims_result_view(res) == verified(token@, key@, now),
{
    judge(decode_hs256(token, key), now)
}

/// Verifies `token` under `key` against the system clock.
pub fn verify_token(token: &str, key: &str) -> (res: Result<Claims, TokenFailure>)
    ensures
        exists|now: u64| claims_result_view(res) == #[trigger] verified(token@, key@, now),
{
    let now = unix_now();
    let res = verify_token_at(token, key, now);
    assert(claims_result_view(res) == verified(token@, key@, now));
    res
}

/// Reads the subject that `token` claims, checking neither signature nor
/// expiry. The payload must still hold all three claims in their proper
/// form.
pub fn peek_subject(token: &str) -> (res: Result<u128, TokenFailure>)
    ensures
        res == peeked_subject(token@),
{
    match decode_unverified(token) {
        None => Err(TokenFailure::Malformed),
        Some(payload) => match claims_from_payload(payload) {
            Ok(claims) => Ok(claims.sub),
            Err(failure) => Err(failure),
        },
    }
}

} // verus!
