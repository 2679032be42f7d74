//! Token claims: signing and verification.
//!
//! A bearer token carries `{subject, issued-at, expires-at}` claims,
//! cryptographically signed with a symmetric key.  Tokens are
//! stateless: they are verified on use and never stored server-side.
//! Decoding reports its three failure kinds distinctly, never
//! conflated, so callers can tell "credential stale" from "credential
//! corrupt or forged".

use std::collections::HashMap;

use jsonwebtoken::errors::ErrorKind;
use jsonwebtoken::{Algorithm, DecodingKey, Validation, decode};

use vstd::prelude::*;

use crate::api_key::{is_hex_digit_lower, random_signing_key};

verus! {

/// The claims embedded in a bearer token.
#[derive(Clone, Copy, Debug, PartialEq, Eq, Structural)]
pub struct Claims {
    /// Subject: the id of the principal the token acts as.
    pub sub: i64,
    /// When the token was issued, in unix seconds.
    pub iat: i64,
    /// When the token expires, in unix seconds.
    pub exp: i64,
}

/// Why a token could not be decoded, or a key not used.
#[derive(Clone, Copy, Debug, PartialEq, Eq, Structural)]
pub enum DecodeError {
    /// The signing secret is not valid standard base64.
    InvalidKey,
    /// The token's signature does not verify under the key.
    InvalidSignature,
    /// The token's expiry has passed.
    ExpiredSignature,
    /// The token is not a well-formed signed token.
    Malformed,
}

/// Whether the key parser accepts a secret: standard base64.
pub uninterp spec fn is_base64_secret(secret: Seq<char>) -> bool;

/// The signed token for the given secret and claims.
pub uninterp spec fn signed_token(secret: Seq<char>, sub: i64, iat: i64, exp: i64) -> Seq<char>;

/// Relies on jsonwebtoken::EncodingKey::from_base64_secret: parsing a
/// secret succeeds exactly when it is standard base64.  In
/// particular, the standard engine accepts any string of lowercase
/// hexadecimal digits whose length is a multiple of four: its
/// characters draw only from the base64 alphabet and form whole
/// four-character groups, leaving nothing for the padding and
/// trailing-bit checks to refuse.
#[verifier::external_body]
fn secret_parses(secret: &str) -> (r: bool)
    ensures
        r == is_base64_secret(secret@),
        (secret@.len() % 4 == 0 && (forall|i: int|
            0 <= i < secret@.len() ==> is_hex_digit_lower(secret@[i]))) ==> r,
{
    jsonwebtoken::EncodingKey::from_base64_secret(secret).is_ok()
}

/// Relies on jsonwebtoken::encode with the HS256 algorithm, whose
/// result is a pure function of the key and the claims, and on
/// jsonwebtoken::EncodingKey::from_base64_secret, which succeeds
/// exactly on standard-base64 secrets.  HMAC signing itself cannot
/// fail once the key has parsed.
#[verifier::external_body]
fn jwt_encode(secret: &str, sub: i64, iat: i64, exp: i64) -> (r: Result<String, DecodeError>)
    ensures
        r is Ok <==> is_base64_secret(secret@),
        r matches Ok(t) ==> t@ == signed_token(secret@, sub, iat, exp),
{
    let key = match jsonwebtoken::EncodingKey::from_base64_secret(secret) {
        Ok(key) => key,
        Err(_) => return Err(DecodeError::InvalidKey),
    };
    let mut claims = serde_json::Map::new();
    claims.insert("sub".to_owned(), serde_json::Value::from(sub));
    claims.insert("iat".to_owned(), serde_json::Value::from(iat));
    claims.insert("exp".to_owned(), serde_json::Value::from(exp));
    jsonwebtoken::encode(&jsonwebtoken::Header::default(), &claims, &key)
        .map_err(|_| DecodeError::InvalidKey)
}

/// Whether a raw decode result is faithful to every signed token: if
/// the token was signed over some claims with a well-formed secret,
/// the result is exactly those claims.
pub open spec fn faithful_decode(
    secret: Seq<char>,
    token: Seq<char>,
    r: Result<(i64, i64, i64), DecodeError>,
) -> bool {
    forall|s: i64, i: i64, e: i64|
        (token == #[trigger] signed_token(secret, s, i, e) && is_base64_secret(secret)) ==> (
        r matches Ok(v) && v == (s, i, e))
}

/// Relies on jsonwebtoken::decode with HS256 and expiry validation
/// turned off, which inverts jsonwebtoken::encode under the same key,
/// and on jsonwebtoken::DecodingKey::from_base64_secret, which
/// succeeds exactly on standard-base64 secrets.  Signature and parse
/// failures are told apart by jsonwebtoken::errors::ErrorKind.
#[verifier::external_body]
fn jwt_decode(secret: &str, token: &str) -> (r: Result<(i64, i64, i64), DecodeError>)
    ensures
        (r matches Err(f) && f == DecodeError::InvalidKey) <==> !is_base64_secret(secret@),
        faithful_decode(secret@, token@, r),
        r matches Err(f) ==> f != DecodeError::ExpiredSignature,
{
    let Ok(key) = DecodingKey::from_base64_secret(secret) else {
        return Err(DecodeError::InvalidKey);
    };
    let mut v = Validation::new(Algorithm::HS256);
    v.validate_exp = false;
    v.required_spec_claims.clear();
    let claims = match decode::<HashMap<String, i64>>(token, &key, &v) {
        Ok(data) => data.claims,
        Err(e) if matches!(e.kind(), ErrorKind::InvalidSignature) => return Err(DecodeError::InvalidSignature),
        Err(_) => return Err(DecodeError::Malformed),
    };
    match (claims.get("sub"), claims.get("iat"), claims.get("exp")) {
        (Some(&s), Some(&i), Some(&e)) => Ok((s, i, e)),
        _ => Err(DecodeError::Malformed),
    }
}

/// The secret signing keys for tokens.
///
/// The secret is read-only after startup.  An operator-supplied
/// persistent secret keeps tokens valid across restarts; absent one, a
/// random secret is generated at each process start, invalidating all
/// previously issued tokens — a deliberate tradeoff the caller should
/// surface, not a silent one.
#[derive(Clone, Debug)]
pub struct SigningKeys {
    secret: String,
    is_random: bool,
}

impl SigningKeys {
    /// The signing secret.
    pub closed spec fn spec_secret(&self) -> Seq<char> {
        self.secret@
    }

    /// Whether the keys were generated randomly at startup.
    pub closed spec fn spec_is_random(&self) -> bool {
        self.is_random
    }

    /// Well-formed keys: the key parser accepts the secret.
    pub open spec fn wf(&self) -> bool {
        is_base64_secret(self.spec_secret())
    }

    /// Creates signing keys from a base64 secret.
    ///
    /// Fails exactly when the secret is not standard base64.
    pub fn new(secret: &str) -> (r: Result<SigningKeys, DecodeError>)
        ensures
            r is Ok <==> is_base64_secret(secret@),
            r matches Ok(k) ==> k.wf() && k.spec_secret() == secret@ && !k.spec_is_random(),
            r matches Err(f) ==> f == DecodeError::InvalidKey,
    {
        if secret_parses(secret) {
            Ok(SigningKeys { secret: secret.to_owned(), is_random: false })
        } else {
            Err(DecodeError::InvalidKey)
        }
    }

    /// Creates a new set of random signing keys.
    ///
    /// Never fails: the generated secret is 512 lowercase hex
    /// digits, which the base64 key parser always accepts.
    pub fn new_random() -> (r: SigningKeys)
        ensures
            r.wf(),
            r.spec_is_random(),
    {
        let secret = random_signing_key();
        let parses = secret_parses(secret.as_str());
        proof {
            assert(parses);
        }
        SigningKeys { secret, is_random: true }
    }

    /// Whether the keys were randomly generated at startup.
    pub fn is_random(&self) -> (r: bool)
        ensures
            r == self.spec_is_random(),
    {
        self.is_random
    }
}

/// What decoding a token signed over the given claims yields at time
/// `now`: the claims themselves before expiry, `ExpiredSignature` from
/// the expiry instant on.
pub open spec fn decoded_at(sub: i64, iat: i64, exp: i64, now: i64) -> Result<Claims, DecodeError> {
    if now >= exp {
        Err(DecodeError::ExpiredSignature)
    } else {
        Ok(Claims { sub, iat, exp })
    }
}

impl Claims {
    /// Starts building claims for a subject.
    pub fn builder(sub: i64) -> (r: ClaimsBuilder)
        ensures
            r.sub == sub,
            r.ttl_seconds == 0,
    {
        ClaimsBuilder { sub, ttl_seconds: 0 }
    }

    /// Signs these claims into a token string.
    ///
    /// Fails exactly when the keys are malformed.
    pub fn encode(&self, keys: &SigningKeys) -> (r: Result<String, DecodeError>)
        ensures
            r is Ok <==> keys.wf(),
            r matches Ok(t) ==> t@ == signed_token(keys.spec_secret(), self.sub, self.iat, self.exp),
            r matches Err(f) ==> f == DecodeError::InvalidKey,
    {
        match jwt_encode(keys.secret.as_str(), self.sub, self.iat, self.exp) {
            Ok(t) => Ok(t),
            Err(_) => Err(DecodeError::InvalidKey),
        }
    }

    /// Verifies and decodes a token at time `now`.
    ///
    /// A token signed with these keys yields its claims while
    /// `now < exp` and `ExpiredSignature` afterwards; a token whose
    /// signature does not verify yields `InvalidSignature`; anything
    /// not shaped like a signed token yields `Malformed`.
    pub fn decode(token: &str, keys: &SigningKeys, now: i64) -> (r: Result<Claims, DecodeError>)
        ensures
            forall|s: i64, i: i64, e: i64|
                token@ == #[trigger] signed_token(keys.spec_secret(), s, i, e) && keys.wf() ==> r
                    == decoded_at(s, i, e, now),
            !keys.wf() ==> r == Err::<Claims, DecodeError>(DecodeError::InvalidKey),
            r matches Ok(c) ==> c.exp > now,
    {
        match jwt_decode(keys.secret.as_str(), token) {
            Ok((sub, iat, exp)) => {
                if now >= exp {
                    Err(DecodeError::ExpiredSignature)
                } else {
                    Ok(Claims { sub, iat, exp })
                }
            },
            Err(f) => Err(f),
        }
    }
}

/// A builder for [`Claims`]: subject plus time-to-live.
#[derive(Clone, Copy, Debug)]
pub struct ClaimsBuilder {
    /// Subject: the id of the principal the token acts as.
    pub sub: i64,
    /// How long the token lives, in seconds.
    pub ttl_seconds: i64,
}

impl ClaimsBuilder {
    /// Sets the time-to-live.
    pub fn exp(self, ttl_seconds: i64) -> (r: ClaimsBuilder)
        ensures
            r.sub == self.sub,
            r.ttl_seconds == ttl_seconds,
    {
        ClaimsBuilder { ttl_seconds, ..self }
    }

    /// Builds the claims, issued at `now`.
    pub fn build(self, now: i64) -> (r: Claims)
        requires
            0 <= self.ttl_seconds,
            now + self.ttl_seconds <= i64::MAX,
        ensures
            r == (Claims { sub: self.sub, iat: now, exp: (now + self.ttl_seconds) as i64 }),
    {
        Claims { sub: self.sub, iat: now, exp: now + self.ttl_seconds }
    }
}

/// Law: decoding a token signed over `{sub, iat, exp}` with the key it
/// was signed with yields `{subject: sub}` at any time before `exp`,
/// and `ExpiredSignature` at any time from `exp` on.
pub proof fn lemma_decode_round_trip(sub: i64, iat: i64, exp: i64, now: i64)
    ensures
        now < exp ==> decoded_at(sub, iat, exp, now) == Ok::<Claims, DecodeError>(
            Claims { sub, iat, exp },
        ),
        now >= exp ==> decoded_at(sub, iat, exp, now) == Err::<Claims, DecodeError>(
            DecodeError::ExpiredSignature,
        ),
{
}

} // verus!
