//! The token codec: claims to signed token and back.
//!
//! Signing and signature checking are `jsonwebtoken`'s; this module settles
//! what is signed and which decoded payloads count as valid claims.

use vstd::prelude::*;
use crate::claims::{Claims, ClaimsModel};
use crate::error::AuthenticationFailure;
use crate::json::{json_model, JsonModel};
use crate::session_key::segment_separator;

verus! {

/// The token that `jsonwebtoken::encode` makes of a payload under a secret,
/// with the default header (HS256); nothing where it reports an error.
pub uninterp spec fn signed_token(payload: JsonModel, secret: Seq<char>) -> Option<Seq<char>>;

/// The payload that `jsonwebtoken::decode` finds in a token under a secret,
/// with HS256 as the only algorithm and without the check of the expiry;
/// nothing where it reports an error.
pub uninterp spec fn signed_payload(token: Seq<char>, secret: Seq<char>) -> Option<JsonModel>;

/// The signature segment that `jsonwebtoken` computes with HS256 for the
/// text of the segments before it, under a secret (`crypto::sign`).
pub uninterp spec fn hs256_signature(message: Seq<char>, secret: Seq<char>) -> Seq<char>;

/// How many separators a token holds: one less than it has segments.
pub open spec fn separator_count(token: Seq<char>) -> nat {
    token.filter(|c: char| c == segment_separator()).len()
}

/// The text of a token before its last separator: what the signature is
/// computed over.
pub open spec fn signed_part(token: Seq<char>) -> Seq<char> {
    match token.index_of_last(segment_separator()) {
        Some(last) => token.take(last),
        None => Seq::empty(),
    }
}

/// The text of a token after its last separator: its signature segment.
pub open spec fn signature_part(token: Seq<char>) -> Seq<char> {
    match token.index_of_last(segment_separator()) {
        Some(last) => token.skip(last + 1),
        None => Seq::empty(),
    }
}

/// Whether a token has three segments, the last of which is the signature
/// of the other two under the secret.
pub open spec fn well_signed(token: Seq<char>, secret: Seq<char>) -> bool {
    &&& separator_count(token) == 2
    &&& signature_part(token) == hs256_signature(signed_part(token), secret)
}

/// `jsonwebtoken::encode` with `Header::default()` and the secret's bytes as
/// HMAC key: the token it returns, nothing where it returns an error. The
/// token it returns is header, payload and signature, joined by separators,
/// where the signature is the one it computes for the first two.
#[verifier::external_body]
fn encode_signed(payload: &serde_json::Value, secret: &str) -> (token: Option<String>)
    ensures
        match token {
            Some(t) => signed_token(json_model(*payload), secret@) == Some(t@),
            None => signed_token(json_model(*payload), secret@) is None,
        },
        token matches Some(t) ==> separator_count(t@) == 2,
        token matches Some(t) ==> signature_part(t@) == hs256_signature(signed_part(t@), secret@),
{
    let key = jsonwebtoken::EncodingKey::from_secret(secret.as_bytes());
    match jsonwebtoken::encode(&jsonwebtoken::Header::default(), payload, &key) {
        Ok(token) => Some(token),
        Err(_) => None,
    }
}

/// `jsonwebtoken::decode` with the secret's bytes as HMAC key and a
/// validation that admits HS256 only and does not look at the clock: the
/// claims it returns, as a JSON value, nothing where it returns an error.
/// It returns claims only for a token of three segments whose last segment
/// is, character for character, the signature it computes itself for the
/// first two.
#[verifier::external_body]
fn decode_signed(token: &str, secret: &str) -> (payload: Option<serde_json::Value>)
    ensures
        match payload {
            Some(p) => signed_payload(token@, secret@) == Some(json_model(p)),
            None => signed_payload(token@, secret@) is None,
        },
        payload is Some ==> separator_count(token@) == 2,
        payload is Some ==> signature_part(token@) == hs256_signature(
            signed_part(token@),
            secret@,
        ),
{
    let key = jsonwebtoken::DecodingKey::from_secret(secret.as_bytes());
    let mut validation = jsonwebtoken::Validation::new(jsonwebtoken::Algorithm::HS256);
    validation.validate_exp = false;
    match jsonwebtoken::decode::<serde_json::Value>(token, &key, &validation) {
        Ok(data) => Some(data.claims),
        Err(_) => None,
    }
}

/// The claims that a decoded payload grants at time `now`: those it stands
/// for, provided they expire strictly after `now`.
pub open spec fn accepted_claims(payload: Option<JsonModel>, now: u64) -> Option<ClaimsModel> {
    match payload {
        Some(p) => match ClaimsModel::of_payload(p) {
            Some(claims) => if claims.exp > now {
                Some(claims)
            } else {
                None
            },
            None => None,
        },
        None => None,
    }
}

/// The claims that a token grants under a secret at time `now`.
pub open spec fn verified_claims(token: Seq<char>, secret: Seq<char>, now: u64) -> Option<
    ClaimsModel,
> {
    accepted_claims(signed_payload(token, secret), now)
}

/// What an optional JSON value holds.
pub open spec fn payload_model(payload: Option<serde_json::Value>) -> Option<JsonModel> {
    match payload {
        Some(p) => Some(json_model(p)),
        None => None,
    }
}

/// Decides on a decoded payload: the claims it stands for if they are well
/// formed and expire strictly after `now`, a failure otherwise, and a failure
/// where there is no payload.
pub fn accept(payload: Option<serde_json::Value>, now: u64) -> (outcome: Result<
    Claims,
    AuthenticationFailure,
>)
    ensures
        match outcome {
            Ok(claims) => accepted_claims(payload_model(payload), now) == Some(claims@),
            Err(_) => accepted_claims(payload_model(payload), now) is None,
        },
{
    match payload {
        Some(p) => match Claims::from_payload(&p) {
            Some(claims) => if claims.exp > now {
                Ok(claims)
            } else {
                Err(AuthenticationFailure)
            },
            None => Err(AuthenticationFailure),
        },
        None => Err(AuthenticationFailure),
    }
}

/// Signs claims into a token of three segments. Nothing is returned only
/// where the encoder itself reports an error.
pub fn issue(claims: &Claims, secret: &str) -> (token: Option<String>)
    ensures
        match token {
            Some(t) => signed_token(claims@.payload(), secret@) == Some(t@),
            None => signed_token(claims@.payload(), secret@) is None,
        },
        token matches Some(t) ==> well_signed(t@, secret@),
{
    let payload = claims.to_payload();
    encode_signed(&payload, secret)
}

/// Checks a token against a secret at time `now` and returns its claims.
/// Malformed token, wrong signature, malformed claims and expiry all give the
/// same failure.
pub fn verify(token: &str, secret: &str, now: u64) -> (outcome: Result<
    Claims,
    AuthenticationFailure,
>)
    ensures
        match outcome {
            Ok(claims) => verified_claims(token@, secret@, now) == Some(claims@),
            Err(_) => verified_claims(token@, secret@, now) is None,
        },
        outcome is Ok ==> well_signed(token@, secret@),
{
    accept(decode_signed(token, secret), now)
}

/// A token that is rightly signed and holds well-formed claims is refused
/// all the same once the claims have expired: from the second of the expiry
/// on it grants nothing.
pub proof fn lemma_expired_token_is_refused(
    token: Seq<char>,
    secret: Seq<char>,
    now: u64,
    payload: JsonModel,
    claims: ClaimsModel,
)
    requires
        signed_payload(token, secret) == Some(payload),
        ClaimsModel::of_payload(payload) == Some(claims),
        claims.exp <= now,
    ensures
        verified_claims(token, secret, now) is None,
{
}

/// Claims are granted only at times strictly before their expiry.
pub proof fn lemma_granted_before_expiry(token: Seq<char>, secret: Seq<char>, now: u64)
    ensures
        verified_claims(token, secret, now) matches Some(claims) ==> now < claims.exp,
{
}

/// What a token grants does not depend on the time, as long as it grants
/// anything: a token accepted at `later` was accepted with the same claims at
/// every earlier time.
pub proof fn lemma_accepted_earlier(token: Seq<char>, secret: Seq<char>, earlier: u64, later: u64)
    requires
        earlier <= later,
        verified_claims(token, secret, later) is Some,
    ensures
        verified_claims(token, secret, earlier) == verified_claims(token, secret, later),
{
}

/// Claims granted by a token are well formed.
pub proof fn lemma_verified_claims_well_formed(token: Seq<char>, secret: Seq<char>, now: u64)
    ensures
        verified_claims(token, secret, now) matches Some(claims) ==> claims.well_formed(),
{
}

/// Changing one character of the signature segment of a well-signed token
/// gives a token that is not well signed, so that `verify` refuses it.
pub proof fn lemma_tampered_signature_is_refused(
    token: Seq<char>,
    secret: Seq<char>,
    at: int,
    changed: char,
)
    requires
        well_signed(token, secret),
        token.len() - signature_part(token).len() <= at < token.len(),
        changed != token[at],
    ensures
        !well_signed(token.update(at, changed), secret),
{
    let dot = segment_separator();
    let tampered = token.update(at, changed);
    assert(token.contains(dot)) by {
        if !token.contains(dot) {
            lemma_count_without_separator(token);
        }
    }
    token.index_of_last_ensures(dot);
    let last = token.index_of_last(dot)->0;
    assert(last < at);
    if changed == dot {
        lemma_count_after_change(token, at, changed);
    } else {
        tampered.index_of_last_ensures(dot);
        assert(tampered[last] == dot);
        assert(tampered.contains(dot));
        let other_last = tampered.index_of_last(dot)->0;
        assert(other_last == last) by {
            if other_last < last {
                assert(tampered[last] != dot);
            }
            if other_last > last {
                assert(token[other_last] != dot);
            }
        }
        assert(signed_part(tampered) =~= signed_part(token));
        assert(signature_part(tampered)[at - last - 1] == changed);
        assert(signature_part(token)[at - last - 1] == token[at]);
    }
}

/// A text without separators counts none.
proof fn lemma_count_without_separator(text: Seq<char>)
    requires
        !text.contains(segment_separator()),
    ensures
        separator_count(text) == 0,
    decreases text.len(),
{
    reveal(Seq::filter);
    if text.len() > 0 {
        let front = text.drop_last();
        assert forall|j: int| 0 <= j < front.len() implies front[j] != segment_separator() by {
            assert(text[j] == front[j]);
            assert(text.contains(text[j]));
        }
        lemma_count_without_separator(front);
        assert(text.contains(text.last()));
    }
}

/// Putting a separator where there was none makes the count one more.
proof fn lemma_count_after_change(text: Seq<char>, at: int, changed: char)
    requires
        0 <= at < text.len(),
        text[at] != segment_separator(),
        changed == segment_separator(),
    ensures
        separator_count(text.update(at, changed)) == separator_count(text) + 1,
{
    let is_separator = |c: char| c == segment_separator();
    let before = text.take(at);
    let after = text.skip(at + 1);
    assert(text =~= before + seq![text[at]] + after);
    assert(text.update(at, changed) =~= before + seq![changed] + after);
    Seq::filter_distributes_over_add(before + seq![text[at]], after, is_separator);
    Seq::filter_distributes_over_add(before, seq![text[at]], is_separator);
    Seq::filter_distributes_over_add(before + seq![changed], after, is_separator);
    Seq::filter_distributes_over_add(before, seq![changed], is_separator);
    assert(seq![text[at]].filter(is_separator) =~= Seq::<char>::empty()) by {
        reveal_with_fuel(Seq::filter, 2);
        assert(seq![text[at]].drop_last() =~= Seq::<char>::empty());
    }
    assert(seq![changed].filter(is_separator) =~= seq![changed]) by {
        reveal_with_fuel(Seq::filter, 2);
        assert(seq![changed].drop_last() =~= Seq::<char>::empty());
    }
}

/// Provided the codec finds in a token the payload that it signed, a token
/// issued for well-formed claims grants those very claims, subject, expiry
/// and data, at every time before they expire. Data that is the JSON value
/// `null` is left out: it reads back as no data.
pub proof fn lemma_issued_token_verifies(
    claims: ClaimsModel,
    secret: Seq<char>,
    token: Seq<char>,
    now: u64,
)
    requires
        claims.well_formed(),
        claims.data != Some(JsonModel::Null),
        now < claims.exp,
        signed_token(claims.payload(), secret) == Some(token),
        signed_payload(token, secret) == Some(claims.payload()),
    ensures
        verified_claims(token, secret, now) == Some(claims),
{
    crate::claims::lemma_payload_round_trip(claims);
}

} // verus!
