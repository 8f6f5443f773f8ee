//! The token verifier: parsing the signing-key id out of a credential,
//! checking its signature under a cached key, and validating its claims
//! against the configured audience, issuer and clock-skew tolerance.
//!
//! The cryptographic work — splitting the compact token, decoding its
//! base64 parts, and verifying the RS256 signature — is done by
//! `jsonwebtoken` behind two trusted functions whose results are named by
//! the uninterpreted functions `header_kid_of` and `signed_claims_of`.
//! Everything downstream of those results, in particular every claim check
//! and the construction of the caller's identity, is verified.

use vstd::prelude::*;

use std::collections::HashSet;

use jsonwebtoken::{decode, decode_header, Algorithm, DecodingKey, Validation};

use crate::error::AuthError;

verus! {

/// The typed claims a credential's payload must carry: audience, issuer,
/// subject, optional email, expiry and issued-at (seconds since the epoch).
/// Extra payload fields are ignored.
pub struct Claims {
    pub aud: String,
    pub iss: String,
    pub sub: String,
    pub email: Option<String>,
    pub exp: u64,
    pub iat: u64,
}

/// The mathematical value of `Claims`.
pub struct ClaimsView {
    pub aud: Seq<char>,
    pub iss: Seq<char>,
    pub sub: Seq<char>,
    pub email: Option<Seq<char>>,
    pub exp: int,
    pub iat: int,
}

impl View for Claims {
    type V = ClaimsView;

    open spec fn view(&self) -> ClaimsView {
        ClaimsView {
            aud: self.aud@,
            iss: self.iss@,
            sub: self.sub@,
            email: match self.email {
                Some(e) => Some(e@),
                None => None,
            },
            exp: self.exp as int,
            iat: self.iat as int,
        }
    }
}

impl DeepView for Claims {
    type V = ClaimsView;

    open spec fn deep_view(&self) -> ClaimsView {
        self.view()
    }
}

/// The identity attached to a request after fully successful verification:
/// the subject as uid, and the email claim if one was present. This is the
/// sole artifact handed to downstream collaborators.
#[derive(Debug)]
pub struct TokenClaims {
    pub uid: String,
    pub email: Option<String>,
}

/// The mathematical value of `TokenClaims`.
pub struct TokenClaimsView {
    pub uid: Seq<char>,
    pub email: Option<Seq<char>>,
}

impl View for TokenClaims {
    type V = TokenClaimsView;

    open spec fn view(&self) -> TokenClaimsView {
        TokenClaimsView {
            uid: self.uid@,
            email: match self.email {
                Some(e) => Some(e@),
                None => None,
            },
        }
    }
}

/// What the verifier expects of every credential: the audience and issuer
/// values its claims must equal, and the clock-skew tolerance (in seconds)
/// granted when judging expiry.
pub struct VerifierConfig {
    pub audience: String,
    pub issuer: String,
    pub skew_secs: u64,
}

/// The mathematical value of `VerifierConfig`.
pub struct VerifierConfigView {
    pub audience: Seq<char>,
    pub issuer: Seq<char>,
    pub skew_secs: int,
}

impl View for VerifierConfig {
    type V = VerifierConfigView;

    open spec fn view(&self) -> VerifierConfigView {
        VerifierConfigView {
            audience: self.audience@,
            issuer: self.issuer@,
            skew_secs: self.skew_secs as int,
        }
    }
}

impl VerifierConfig {
    /// The expectations for one identity-provider project: the audience is
    /// the project id itself, the issuer is the provider's issuer URL for
    /// that project.
    pub fn for_project(project_id: &str, skew_secs: u64) -> (c: VerifierConfig)
        ensures
            c@.audience == project_id@,
            c@.issuer == "https://securetoken.google.com/"@ + project_id@,
            c@.skew_secs == skew_secs as int,
    {
        let mut issuer = String::from_str("https://securetoken.google.com/");
        issuer.append(project_id);
        VerifierConfig { audience: project_id.to_owned(), issuer, skew_secs }
    }
}

/// What `jsonwebtoken::decode_header` extracts from a credential: `None`
/// when the credential is not three dot-separated parts with a decodable
/// header, otherwise the header's optional `kid`. A function of the
/// credential string alone.
pub uninterp spec fn header_kid_of(token: Seq<char>) -> Option<Option<Seq<char>>>;

/// Relies on jsonwebtoken::decode_header: whether the token splits into
/// three dot-separated parts with a base64-decodable JSON header, and which
/// `kid` that header carries, depend on the token string alone.
#[verifier::external_body]
fn token_header_kid(token: &str) -> (r: Option<Option<String>>)
    ensures
        r.deep_view() == header_kid_of(token@),
{
    match decode_header(token) {
        Ok(h) => Some(h.kid),
        Err(_) => None,
    }
}

/// What RS256 signature verification plus payload decoding yields for a
/// credential under a key: `None` unless the key bytes parse as an RSA
/// public key, the header names RS256, the signature over header and
/// payload verifies under the key, and the payload is JSON carrying the
/// claim fields of `Claims`; otherwise exactly those claims. A function of
/// the credential and the key bytes alone.
pub uninterp spec fn signed_claims_of(token: Seq<char>, key_pem: Seq<u8>) -> Option<ClaimsView>;

/// Relies on jsonwebtoken::decode (and jsonwebtoken::DecodingKey::from_rsa_pem
/// to read the key, serde_json::Value to read the payload fields): with
/// expiry, not-before and audience validation switched off and no required
/// claims, decoding consults no clock and is a function of the token and the
/// key bytes alone.
#[verifier::external_body]
fn decode_signed_claims(token: &str, key_pem: &Vec<u8>) -> (r: Option<Claims>)
    ensures
        r.deep_view() == signed_claims_of(token@, key_pem@),
        !crate::keys::rsa_pem_accepts(key_pem@) ==> r is None,
{
    let key = DecodingKey::from_rsa_pem(key_pem.as_slice()).ok()?;
    let mut validation = Validation::new(Algorithm::RS256);
    validation.validate_exp = false;
    validation.validate_aud = false;
    validation.required_spec_claims = HashSet::new();
    let v = decode::<serde_json::Value>(token, &key, &validation).ok()?.claims;
    Some(Claims {
        aud: v.get("aud")?.as_str()?.to_string(),
        iss: v.get("iss")?.as_str()?.to_string(),
        sub: v.get("sub")?.as_str()?.to_string(),
        email: v.get("email").and_then(|e| e.as_str()).map(str::to_string),
        exp: v.get("exp")?.as_u64()?,
        iat: v.get("iat")?.as_u64()?,
    })
}

/// How extracting the signing-key id from a credential ends: a credential
/// whose structure does not decode is malformed; one whose header names no
/// key id cannot be verified; otherwise the key id.
pub open spec fn kid_outcome(token: Seq<char>) -> Result<Seq<char>, AuthError> {
    match header_kid_of(token) {
        None => Err(AuthError::CredentialMalformed),
        Some(None) => Err(AuthError::MissingKeyId),
        Some(Some(kid)) => Ok(kid),
    }
}

/// Extract the signing-key id from the credential's header.
pub fn parse_kid(token: &str) -> (r: Result<String, AuthError>)
    ensures
        (match r {
            Ok(kid) => kid_outcome(token@) == Ok::<Seq<char>, AuthError>(kid@),
            Err(e) => kid_outcome(token@) == Err::<Seq<char>, AuthError>(e),
        }),
{
    match token_header_kid(token) {
        None => Err(AuthError::CredentialMalformed),
        Some(None) => Err(AuthError::MissingKeyId),
        Some(Some(kid)) => Ok(kid),
    }
}

/// The first claim check a credential's claims fail against the configured
/// expectations at the given time, if any. Audience and issuer must equal
/// the configured values; the expiry must lie strictly beyond the current
/// time minus the skew tolerance.
pub open spec fn claim_error(c: ClaimsView, cfg: VerifierConfigView, now: int) -> Option<
    AuthError,
> {
    if c.aud != cfg.audience || c.iss != cfg.issuer {
        Some(AuthError::ClaimMismatch)
    } else if c.exp + cfg.skew_secs <= now {
        Some(AuthError::Expired)
    } else {
        None
    }
}

/// Check a credential's claims against the configured expectations.
pub fn check_claims(c: &Claims, cfg: &VerifierConfig, now: u64) -> (r: Option<AuthError>)
    ensures
        r == claim_error(c@, cfg@, now as int),
{
    if !(c.aud == cfg.audience) || !(c.iss == cfg.issuer) {
        Some(AuthError::ClaimMismatch)
    } else if now >= c.exp && now - c.exp >= cfg.skew_secs {
        Some(AuthError::Expired)
    } else {
        None
    }
}

/// How verifying a credential under one key ends: no verified claims means
/// the signature (or the payload under it) does not check out; otherwise
/// the first failing claim check decides, and with none failing the
/// credential's subject and email become the caller's identity.
pub open spec fn verify_key_outcome(
    token: Seq<char>,
    key_pem: Seq<u8>,
    cfg: VerifierConfigView,
    now: int,
) -> Result<TokenClaimsView, AuthError> {
    match signed_claims_of(token, key_pem) {
        None => Err(AuthError::SignatureInvalid),
        Some(c) => match claim_error(c, cfg, now) {
            Some(e) => Err(e),
            None => Ok(TokenClaimsView { uid: c.sub, email: c.email }),
        },
    }
}

/// Verify a credential's signature under one located key and validate its
/// claims. On full success — and only then — an identity is constructed.
pub fn verify_with_key(token: &str, key_pem: &Vec<u8>, cfg: &VerifierConfig, now: u64) -> (r:
    Result<TokenClaims, AuthError>)
    ensures
        (match r {
            Ok(id) => verify_key_outcome(token@, key_pem@, cfg@, now as int)
                == Ok::<TokenClaimsView, AuthError>(id@),
            Err(e) => verify_key_outcome(token@, key_pem@, cfg@, now as int)
                == Err::<TokenClaimsView, AuthError>(e),
        }),
{
    match decode_signed_claims(token, key_pem) {
        None => Err(AuthError::SignatureInvalid),
        Some(c) => match check_claims(&c, cfg, now) {
            Some(e) => Err(e),
            None => Ok(TokenClaims { uid: c.sub, email: c.email }),
        },
    }
}

/// Law: every credential whose signature verifies under the key, whose
/// audience and issuer equal the configured ones, and whose expiry lies
/// strictly beyond the skew window, verifies successfully, to the identity
/// whose uid is the credential's subject and whose email is its email claim.
pub proof fn lemma_valid_token_accepted(
    token: Seq<char>,
    key_pem: Seq<u8>,
    cfg: VerifierConfigView,
    now: int,
    c: ClaimsView,
)
    requires
        signed_claims_of(token, key_pem) == Some(c),
        c.aud == cfg.audience,
        c.iss == cfg.issuer,
        c.exp + cfg.skew_secs > now,
    ensures
        verify_key_outcome(token, key_pem, cfg, now) == Ok::<TokenClaimsView, AuthError>(
            (TokenClaimsView { uid: c.sub, email: c.email }),
        ),
{
}

/// Law: every credential that carries verified claims whose audience or
/// issuer differs from the configured ones fails with `ClaimMismatch`,
/// whatever its expiry.
pub proof fn lemma_claim_mismatch_rejected(
    token: Seq<char>,
    key_pem: Seq<u8>,
    cfg: VerifierConfigView,
    now: int,
    c: ClaimsView,
)
    requires
        signed_claims_of(token, key_pem) == Some(c),
        c.aud != cfg.audience || c.iss != cfg.issuer,
    ensures
        verify_key_outcome(token, key_pem, cfg, now) == Err::<TokenClaimsView, AuthError>(
            AuthError::ClaimMismatch,
        ),
{
}

/// Law: every credential that carries verified, claim-matching claims whose
/// expiry lies at or before the current time minus the skew tolerance fails
/// with `Expired`, however well-formed and well-signed it is.
pub proof fn lemma_expired_rejected(
    token: Seq<char>,
    key_pem: Seq<u8>,
    cfg: VerifierConfigView,
    now: int,
    c: ClaimsView,
)
    requires
        signed_claims_of(token, key_pem) == Some(c),
        c.aud == cfg.audience,
        c.iss == cfg.issuer,
        c.exp <= now - cfg.skew_secs,
    ensures
        verify_key_outcome(token, key_pem, cfg, now) == Err::<TokenClaimsView, AuthError>(
            AuthError::Expired,
        ),
{
}

} // verus!
