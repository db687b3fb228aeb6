//! Verification of identity tokens against a key-set snapshot.

use vstd::prelude::*;
use crate::keys::{KeySet, KeySetCache, GoogleJwk, GoogleJwks, first_key_index, find_key, same_text};
use jsonwebtoken::Algorithm as A;
use jsonwebtoken::errors::ErrorKind;
use jsonwebtoken::{decode, DecodingKey, Validation};
use serde_json::Value;

verus! {

/// Signing algorithms a token header may name.
#[derive(PartialEq, Eq, Structural, Clone, Copy, Debug)]
pub enum SigningAlgorithm {
    HS256,
    HS384,
    HS512,
    ES256,
    ES384,
    RS256,
    RS384,
    RS512,
    PS256,
    PS384,
    PS512,
    EdDSA,
}

/// What the unverified header of a token says.
pub struct TokenHeader {
    pub alg: SigningAlgorithm,
    pub kid: Option<String>,
}

/// Why a token could not be turned into a verified identity.
#[derive(PartialEq, Eq, Structural, Clone, Copy, Debug)]
pub enum VerifyError {
    MalformedToken,
    UnknownSigningKey,
    SignatureInvalid,
    ClaimExpired,
    IssuerMismatch,
    AudienceMismatch,
    /// The remote key collection could not be fetched.
    KeySetUnavailable,
}

/// Why the signature check and payload decoding of a token failed.
#[derive(PartialEq, Eq, Structural, Clone, Copy, Debug)]
pub enum DecodeFailure {
    /// The signature does not match the key.
    BadSignature,
    /// The key components are not valid base64url.
    BadKey,
    /// The token is not a well-formed signed token with a JSON payload.
    Malformed,
}

/// The payload fields of a token whose signature checked out, each present
/// only when the payload holds it with the expected JSON type.
pub struct GoogleIdTokenClaims {
    pub iss: Option<String>,
    pub aud: Option<String>,
    pub sub: Option<String>,
    pub email: Option<String>,
    pub name: Option<String>,
    pub exp: Option<i64>,
    pub iat: Option<i64>,
}

/// The payload fields as values.
pub struct ClaimsView {
    pub iss: Option<Seq<char>>,
    pub aud: Option<Seq<char>>,
    pub sub: Option<Seq<char>>,
    pub email: Option<Seq<char>>,
    pub name: Option<Seq<char>>,
    pub exp: Option<i64>,
    pub iat: Option<i64>,
}

pub open spec fn opt_text(o: Option<String>) -> Option<Seq<char>> {
    match o {
        Some(s) => Some(s@),
        None => None,
    }
}

impl View for GoogleIdTokenClaims {
    type V = ClaimsView;

    open spec fn view(&self) -> ClaimsView {
        ClaimsView {
            iss: opt_text(self.iss),
            aud: opt_text(self.aud),
            sub: opt_text(self.sub),
            email: opt_text(self.email),
            name: opt_text(self.name),
            exp: self.exp,
            iat: self.iat,
        }
    }
}

/// The verified identity a token proves.
pub struct IdentityClaim {
    pub subject_id: String,
    pub email: String,
    pub display_name: String,
    pub issued_at: i64,
    pub expires_at: i64,
    pub issuer: String,
    pub audience: String,
}

/// An identity as values.
pub struct IdentityView {
    pub subject_id: Seq<char>,
    pub email: Seq<char>,
    pub display_name: Seq<char>,
    pub issued_at: i64,
    pub expires_at: i64,
    pub issuer: Seq<char>,
    pub audience: Seq<char>,
}

impl View for IdentityClaim {
    type V = IdentityView;

    open spec fn view(&self) -> IdentityView {
        IdentityView {
            subject_id: self.subject_id@,
            email: self.email@,
            display_name: self.display_name@,
            issued_at: self.issued_at,
            expires_at: self.expires_at,
            issuer: self.issuer@,
            audience: self.audience@,
        }
    }
}

pub open spec fn outcome_view(r: Result<IdentityClaim, VerifyError>) -> Result<IdentityView, VerifyError> {
    match r {
        Ok(c) => Ok(c@),
        Err(e) => Err(e),
    }
}

/// Header fields of a compact token as read by the token library, before any
/// signature check: the algorithm and the key identifier.
pub uninterp spec fn header_fields(token: Seq<char>) -> Option<(SigningAlgorithm, Option<Seq<char>>)>;

/// Outcome of checking the RS256 signature of `token` with the RSA key
/// (`n`, `e`) and decoding its JSON payload.
pub uninterp spec fn signed_claims(token: Seq<char>, n: Seq<char>, e: Seq<char>) -> Result<ClaimsView, DecodeFailure>;

/// Relies on jsonwebtoken::decode_header: parses the unverified header.
#[verifier::external_body]
fn read_header(token: &str) -> (r: Option<TokenHeader>)
    ensures
        match r {
            Some(h) => header_fields(token@) == Some((h.alg, opt_text(h.kid))),
            None => header_fields(token@) is None,
        },
{
    let h = jsonwebtoken::decode_header(token).ok()?;
    let alg = match h.alg {
        A::HS256 => SigningAlgorithm::HS256, A::HS384 => SigningAlgorithm::HS384,
        A::HS512 => SigningAlgorithm::HS512, A::ES256 => SigningAlgorithm::ES256,
        A::ES384 => SigningAlgorithm::ES384, A::RS256 => SigningAlgorithm::RS256,
        A::RS384 => SigningAlgorithm::RS384, A::RS512 => SigningAlgorithm::RS512,
        A::PS256 => SigningAlgorithm::PS256, A::PS384 => SigningAlgorithm::PS384,
        A::PS512 => SigningAlgorithm::PS512, A::EdDSA => SigningAlgorithm::EdDSA,
    };
    Some(TokenHeader { alg, kid: h.kid })
}

/// Relies on jsonwebtoken::DecodingKey::from_rsa_components and
/// jsonwebtoken::decode with RS256 only and every claim check switched off:
/// the signature check, and the payload read as JSON.
#[verifier::external_body]
fn decode_claims(token: &str, n: &str, e: &str) -> (r: Result<GoogleIdTokenClaims, DecodeFailure>)
    ensures
        match r {
            Ok(c) => signed_claims(token@, n@, e@) == Ok::<ClaimsView, DecodeFailure>(c@),
            Err(f) => signed_claims(token@, n@, e@) == Err::<ClaimsView, DecodeFailure>(f),
        },
{
    let key = DecodingKey::from_rsa_components(n, e).map_err(|_| DecodeFailure::BadKey)?;
    let mut rules = Validation::new(A::RS256);
    (rules.validate_exp, rules.validate_aud) = (false, false);
    rules.required_spec_claims.clear();
    let c = decode::<Value>(token, &key, &rules).map_err(|err| match err.kind() {
        ErrorKind::InvalidSignature => DecodeFailure::BadSignature,
        _ => DecodeFailure::Malformed,
    })?.claims;
    let t = |k: &str| c[k].as_str().map(String::from);
    Ok(GoogleIdTokenClaims { iss: t("iss"), aud: t("aud"), sub: t("sub"), email: t("email"), name: t("name"), exp: c["exp"].as_i64(), iat: c["iat"].as_i64() })
}

/// The two issuer strings the identity provider signs with.
pub open spec fn issuer_accepted(iss: Seq<char>) -> bool {
    iss == "https://accounts.google.com"@ || iss == "accounts.google.com"@
}

/// Display name used when the token carries none.
pub open spec fn placeholder_name() -> Seq<char> {
    "Unknown"@
}

/// What a decoded payload proves at `now` for the expected `audience`.
/// Expiry is judged first, so an expired token is reported as such whatever
/// else it lacks; then the other required claims, the issuer and the audience.
pub open spec fn claims_outcome(c: ClaimsView, audience: Seq<char>, now: i64) -> Result<IdentityView, VerifyError> {
    if c.exp is None {
        Err(VerifyError::MalformedToken)
    } else if c.exp->0 < now {
        Err(VerifyError::ClaimExpired)
    } else if c.iss is None || c.aud is None || c.sub is None || c.email is None || c.iat is None {
        Err(VerifyError::MalformedToken)
    } else if !issuer_accepted(c.iss->0) {
        Err(VerifyError::IssuerMismatch)
    } else if c.aud->0 != audience {
        Err(VerifyError::AudienceMismatch)
    } else {
        Ok(IdentityView {
            subject_id: c.sub->0,
            email: c.email->0,
            display_name: match c.name {
                Some(n) => n,
                None => placeholder_name(),
            },
            issued_at: c.iat->0,
            expires_at: c.exp->0,
            issuer: c.iss->0,
            audience: c.aud->0,
        })
    }
}

/// The error a failed signature check or payload decoding is reported as.
pub open spec fn decode_error(f: DecodeFailure) -> VerifyError {
    match f {
        DecodeFailure::BadSignature => VerifyError::SignatureInvalid,
        DecodeFailure::BadKey => VerifyError::SignatureInvalid,
        DecodeFailure::Malformed => VerifyError::MalformedToken,
    }
}

/// The full verification pipeline: header, algorithm, key lookup, signature,
/// then the claims.
pub open spec fn verification_outcome(
    token: Seq<char>,
    keys: Seq<GoogleJwk>,
    audience: Seq<char>,
    now: i64,
) -> Result<IdentityView, VerifyError> {
    match header_fields(token) {
        None => Err(VerifyError::MalformedToken),
        Some((alg, kid)) => if alg != SigningAlgorithm::RS256 {
            Err(VerifyError::SignatureInvalid)
        } else {
            match kid {
                None => Err(VerifyError::MalformedToken),
                Some(kid) => match first_key_index(keys, kid) {
                    None => Err(VerifyError::UnknownSigningKey),
                    Some(i) => match signed_claims(token, keys[i].n@, keys[i].e@) {
                        Err(f) => Err(decode_error(f)),
                        Ok(c) => claims_outcome(c, audience, now),
                    },
                },
            }
        },
    }
}

fn text_of(o: &Option<String>) -> (r: String)
    requires
        o is Some,
    ensures
        r@ == o->0@,
{
    match o {
        Some(s) => s.clone(),
        None => String::new(),
    }
}

/// Judges a decoded payload: expiry against `now`, the issuer against the
/// two accepted values, the audience against the configured one.
pub fn check_claims(c: &GoogleIdTokenClaims, audience: &str, now: i64) -> (r: Result<IdentityClaim, VerifyError>)
    ensures
        outcome_view(r) == claims_outcome(c@, audience@, now),
{
    let exp = match c.exp {
        Some(exp) => exp,
        None => return Err(VerifyError::MalformedToken),
    };
    if exp < now {
        return Err(VerifyError::ClaimExpired);
    }
    if c.iss.is_none() || c.aud.is_none() || c.sub.is_none() || c.email.is_none() || c.iat.is_none() {
        return Err(VerifyError::MalformedToken);
    }
    let iss = text_of(&c.iss);
    proof {
        reveal_strlit("https://accounts.google.com");
        reveal_strlit("accounts.google.com");
    }
    if !same_text(iss.as_str(), "https://accounts.google.com") && !same_text(iss.as_str(), "accounts.google.com") {
        return Err(VerifyError::IssuerMismatch);
    }
    let aud = text_of(&c.aud);
    if !same_text(aud.as_str(), audience) {
        return Err(VerifyError::AudienceMismatch);
    }
    let display_name = match &c.name {
        Some(n) => n.clone(),
        None => String::from_str("Unknown"),
    };
    let iat = match c.iat {
        Some(iat) => iat,
        None => 0,
    };
    Ok(IdentityClaim {
        subject_id: text_of(&c.sub),
        email: text_of(&c.email),
        display_name,
        issued_at: iat,
        expires_at: exp,
        issuer: iss,
        audience: aud,
    })
}

/// Verifies a bearer token against the key-set snapshot current at `now`.
/// The header must name RS256: any other algorithm, which an attacker could
/// choose to weaken the check, is refused as `SignatureInvalid`; a header
/// without a key identifier is `MalformedToken`.
pub fn validate_google_id_token(token: &str, key_set: &KeySet, audience: &str, now: i64) -> (r: Result<IdentityClaim, VerifyError>)
    ensures
        outcome_view(r) == verification_outcome(token@, key_set.jwks.keys@, audience@, now),
{
    let header = match read_header(token) {
        Some(h) => h,
        None => return Err(VerifyError::MalformedToken),
    };
    if header.alg != SigningAlgorithm::RS256 {
        return Err(VerifyError::SignatureInvalid);
    }
    let kid = match &header.kid {
        Some(k) => k,
        None => return Err(VerifyError::MalformedToken),
    };
    let keys = &key_set.jwks.keys;
    let i = match find_key(keys, kid.as_str()) {
        Some(i) => i,
        None => return Err(VerifyError::UnknownSigningKey),
    };
    let key = &keys[i];
    match decode_claims(token, key.n.as_str(), key.e.as_str()) {
        Err(DecodeFailure::BadSignature) => Err(VerifyError::SignatureInvalid),
        Err(DecodeFailure::BadKey) => Err(VerifyError::SignatureInvalid),
        Err(DecodeFailure::Malformed) => Err(VerifyError::MalformedToken),
        Ok(c) => check_claims(&c, audience, now),
    }
}

/// Concludes a fetch of the key collection made at `now`: a fetched
/// collection replaces the snapshot whole; a failed fetch is reported, and
/// the stale snapshot, left in place, is still not served.
pub fn finish_key_fetch(cache: &mut KeySetCache, fetched: Option<GoogleJwks>, now: i64) -> (r: Result<(), VerifyError>)
    ensures
        match fetched {
            Some(jwks) => r is Ok && final(cache).snapshot == Some(KeySet { fetched_at: now, jwks }),
            None => r == Err::<(), VerifyError>(VerifyError::KeySetUnavailable) && *final(cache)
                == *old(cache),
        },
{
    match fetched {
        Some(jwks) => {
            cache.install(jwks, now);
            Ok(())
        },
        None => Err(VerifyError::KeySetUnavailable),
    }
}

/// A token whose header names RS256 and a published key, whose signature
/// checks out under the first key with that identifier, that has not
/// expired, and whose issuer and audience match, is accepted, and the
/// identity carries the token's subject and email.
pub proof fn lemma_valid_token_accepted(
    token: Seq<char>,
    keys: Seq<GoogleJwk>,
    audience: Seq<char>,
    now: i64,
    kid: Seq<char>,
    i: int,
    c: ClaimsView,
)
    requires
        header_fields(token) == Some((SigningAlgorithm::RS256, Some(kid))),
        first_key_index(keys, kid) == Some(i),
        signed_claims(token, keys[i].n@, keys[i].e@) == Ok::<ClaimsView, DecodeFailure>(c),
        c.exp is Some,
        now <= c.exp->0,
        c.iat is Some,
        c.iss is Some,
        issuer_accepted(c.iss->0),
        c.aud == Some(audience),
        c.sub is Some,
        c.email is Some,
    ensures
        verification_outcome(token, keys, audience, now) is Ok,
        verification_outcome(token, keys, audience, now)->Ok_0.subject_id == c.sub->0,
        verification_outcome(token, keys, audience, now)->Ok_0.email == c.email->0,
{
}

/// A token whose key identifier is absent from the key set is refused as
/// signed by an unknown key.
pub proof fn lemma_unknown_key_refused(
    token: Seq<char>,
    keys: Seq<GoogleJwk>,
    audience: Seq<char>,
    now: i64,
    kid: Seq<char>,
)
    requires
        header_fields(token) == Some((SigningAlgorithm::RS256, Some(kid))),
        forall|j: int| 0 <= j < keys.len() ==> keys[j].kid@ != kid,
    ensures
        verification_outcome(token, keys, audience, now) == Err::<IdentityView, VerifyError>(
            VerifyError::UnknownSigningKey,
        ),
{
}

/// A correctly signed token whose expiry lies before `now` is refused as
/// expired, whatever its other claims say.
pub proof fn lemma_expired_token_refused(
    token: Seq<char>,
    keys: Seq<GoogleJwk>,
    audience: Seq<char>,
    now: i64,
    kid: Seq<char>,
    i: int,
    c: ClaimsView,
)
    requires
        header_fields(token) == Some((SigningAlgorithm::RS256, Some(kid))),
        first_key_index(keys, kid) == Some(i),
        signed_claims(token, keys[i].n@, keys[i].e@) == Ok::<ClaimsView, DecodeFailure>(c),
        c.exp is Some,
        c.exp->0 < now,
    ensures
        verification_outcome(token, keys, audience, now) == Err::<IdentityView, VerifyError>(
            VerifyError::ClaimExpired,
        ),
{
}

} // verus!
