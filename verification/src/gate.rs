//! The request gate: extract the bearer credential from the Authorization
//! header, verify it against the key cache, and turn the outcome into an
//! allow/deny decision.
//!
//! Verification against the cache is a two-step protocol. A first attempt
//! (`already_refreshed == false`) that finds the credential's key id absent
//! from the cache does not fail: it asks the caller for exactly one key
//! refresh by returning `NeedsRefresh`. After the caller has applied the
//! refresh outcome to the cache, the one retry (`already_refreshed == true`)
//! maps a still-absent key id to `UnknownKey`. The shape of `VerifyStep`
//! makes a second refresh request for the same attempt impossible.

use vstd::prelude::*;

use crate::error::{AppError, AuthError};
use crate::keys::{find_key, KeyCache, SigningKeyView};
use crate::token::{
    kid_outcome, parse_kid, verify_key_outcome, verify_with_key, TokenClaims, TokenClaimsView,
    VerifierConfig, VerifierConfigView,
};

verus! {

/// One step of verifying a credential against the cache: either a final
/// outcome, or a request that the caller refresh the key cache once and
/// retry.
pub enum VerifyStep {
    Done(Result<TokenClaims, AuthError>),
    NeedsRefresh(String),
}

/// The mathematical value of a `VerifyStep`.
pub enum VerifyStepView {
    Done(Result<TokenClaimsView, AuthError>),
    NeedsRefresh(Seq<char>),
}

impl View for VerifyStep {
    type V = VerifyStepView;

    open spec fn view(&self) -> VerifyStepView {
        match self {
            VerifyStep::Done(Ok(id)) => VerifyStepView::Done(Ok(id@)),
            VerifyStep::Done(Err(e)) => VerifyStepView::Done(Err(*e)),
            VerifyStep::NeedsRefresh(kid) => VerifyStepView::NeedsRefresh(kid@),
        }
    }
}

/// How one verification step against a snapshot with the given keys ends:
/// a malformed credential or one without a key id fails outright; a key id
/// present in the snapshot hands over to signature and claim checking; an
/// absent key id asks for the one refresh, or — once it has been granted —
/// fails with `UnknownKey`.
pub open spec fn verify_step_outcome(
    keys: Seq<SigningKeyView>,
    token: Seq<char>,
    cfg: VerifierConfigView,
    now: int,
    already_refreshed: bool,
) -> VerifyStepView {
    match kid_outcome(token) {
        Err(e) => VerifyStepView::Done(Err(e)),
        Ok(kid) => match find_key(keys, kid) {
            Some(pem) => VerifyStepView::Done(verify_key_outcome(token, pem, cfg, now)),
            None => if already_refreshed {
                VerifyStepView::Done(Err(AuthError::UnknownKey))
            } else {
                VerifyStepView::NeedsRefresh(kid)
            },
        },
    }
}

/// One verification step of a credential against the current key cache.
/// Reads one complete snapshot; performs no fetch of its own.
pub fn verify_once(
    cache: &KeyCache,
    token: &str,
    cfg: &VerifierConfig,
    now: u64,
    already_refreshed: bool,
) -> (r: VerifyStep)
    ensures
        r@ == verify_step_outcome(cache.spec_keys(), token@, cfg@, now as int, already_refreshed),
{
    let kid = match parse_kid(token) {
        Err(e) => {
            return VerifyStep::Done(Err(e));
        },
        Ok(kid) => kid,
    };
    proof {
        crate::keys::lemma_cache_lookup_is_find(*cache, kid@);
    }
    match cache.lookup(kid.as_str()) {
        Some(key) => VerifyStep::Done(verify_with_key(token, &key.pem, cfg, now)),
        None => if already_refreshed {
            VerifyStep::Done(Err(AuthError::UnknownKey))
        } else {
            VerifyStep::NeedsRefresh(kid)
        },
    }
}

/// How credential extraction from the Authorization header ends: no header,
/// or any scheme but `Bearer `, is a missing credential; otherwise the
/// token is what follows the scheme.
pub open spec fn bearer_token_of(header: Option<Seq<char>>) -> Result<Seq<char>, AuthError> {
    match header {
        None => Err(AuthError::CredentialMissing),
        Some(h) => if h.len() >= 7 && h.subrange(0, 7) == "Bearer "@ {
            Ok(h.subrange(7, h.len() as int))
        } else {
            Err(AuthError::CredentialMissing)
        },
    }
}

/// Read the bearer credential out of the Authorization header, if one was
/// presented with the `Bearer ` scheme.
pub fn extract_bearer<'a>(header: Option<&'a str>) -> (r: Result<&'a str, AuthError>)
    ensures
        (match r {
            Ok(t) => bearer_token_of(header.deep_view()) == Ok::<Seq<char>, AuthError>(t@),
            Err(e) => bearer_token_of(header.deep_view()) == Err::<Seq<char>, AuthError>(e),
        }),
{
    let h = match header {
        None => {
            return Err(AuthError::CredentialMissing);
        },
        Some(h) => h,
    };
    let n = h.unicode_len();
    if n < 7 {
        return Err(AuthError::CredentialMissing);
    }
    proof {
        reveal_strlit("Bearer ");
    }
    let scheme: [char; 7] = ['B', 'e', 'a', 'r', 'e', 'r', ' '];
    assert(scheme@ =~= "Bearer "@);
    for i in 0..7usize
        invariant
            header == Some(h),
            n == h@.len(),
            n >= 7,
            scheme@ =~= "Bearer "@,
            forall|j: int| 0 <= j < i ==> h@[j] == scheme@[j],
    {
        if h.get_char(i) != scheme[i] {
            assert(h@.subrange(0, 7) != "Bearer "@) by {
                assert(h@.subrange(0, 7)[i as int] == h@[i as int]);
                assert(h@[i as int] != "Bearer "@[i as int]);
            }
            return Err(AuthError::CredentialMissing);
        }
    }
    assert(h@.subrange(0, 7) =~= "Bearer "@);
    Ok(h.substring_char(7, n))
}

/// How the whole gate pipeline ends for one request, given the keys of the
/// current snapshot: extraction first, then one verification step.
pub open spec fn gate_outcome(
    keys: Seq<SigningKeyView>,
    header: Option<Seq<char>>,
    cfg: VerifierConfigView,
    now: int,
    already_refreshed: bool,
) -> VerifyStepView {
    match bearer_token_of(header) {
        Err(e) => VerifyStepView::Done(Err(e)),
        Ok(token) => verify_step_outcome(keys, token, cfg, now, already_refreshed),
    }
}

/// The whole pipeline applied to one request: extract the credential from
/// the Authorization header and run one verification step against the cache.
/// On `Done(Ok(identity))` the caller attaches the identity to the request;
/// on `Done(Err(_))` it rejects the request; on `NeedsRefresh` it refreshes
/// the cache once and calls again with `already_refreshed` set.
pub fn gate_check(
    cache: &KeyCache,
    header: Option<&str>,
    cfg: &VerifierConfig,
    now: u64,
    already_refreshed: bool,
) -> (r: VerifyStep)
    ensures
        r@ == gate_outcome(cache.spec_keys(), header.deep_view(), cfg@, now as int, already_refreshed),
{
    match extract_bearer(header) {
        Err(e) => VerifyStep::Done(Err(e)),
        Ok(token) => verify_once(cache, token, cfg, now, already_refreshed),
    }
}

/// The identity carried in the request context after successful
/// verification, for downstream handlers to read.
#[derive(Clone, Debug)]
pub struct AuthenticatedUser {
    pub uid: String,
    pub email: Option<String>,
}

impl AuthenticatedUser {
    /// The identity handed downstream is exactly the verified one.
    pub fn from_claims(claims: TokenClaims) -> (r: AuthenticatedUser)
        ensures
            r.uid@ == claims@.uid,
            (match r.email {
                Some(e) => claims@.email == Some(e@),
                None => claims@.email is None,
            }),
    {
        AuthenticatedUser { uid: claims.uid, email: claims.email }
    }
}

/// The extractor handlers use to demand an authenticated caller: it reads
/// the identity from the request context, and rejects the request if none
/// is there — that is, if the route skipped authentication.
#[derive(Debug)]
pub struct AuthUser(pub AuthenticatedUser);

impl AuthUser {
    /// Take the identity out of the request context, if one was put there
    /// by the middleware.
    pub fn from_extension(ext: Option<AuthenticatedUser>) -> (r: Result<AuthUser, AppError>)
        ensures
            (match ext {
                Some(u) => r matches Ok(a) && a.0 == u,
                None => r matches Err(AppError::Unauthorized(m)) && m@ == "Not authenticated"@,
            }),
    {
        match ext {
            Some(u) => Ok(AuthUser(u)),
            None => Err(AppError::Unauthorized(String::from_str("Not authenticated"))),
        }
    }
}


/// Law: a valid credential — its key id present in the snapshot, its
/// signature verifying under that key, its audience and issuer the
/// configured ones, its expiry strictly beyond the skew window — is
/// verified to the identity whose uid is the credential's subject, whether
/// or not a refresh was already granted.
pub proof fn lemma_valid_token_admitted(
    keys: Seq<SigningKeyView>,
    token: Seq<char>,
    cfg: VerifierConfigView,
    now: int,
    already_refreshed: bool,
    kid: Seq<char>,
    pem: Seq<u8>,
    c: crate::token::ClaimsView,
)
    requires
        kid_outcome(token) == Ok::<Seq<char>, AuthError>(kid),
        find_key(keys, kid) == Some(pem),
        crate::token::signed_claims_of(token, pem) == Some(c),
        c.aud == cfg.audience,
        c.iss == cfg.issuer,
        c.exp + cfg.skew_secs > now,
    ensures
        verify_step_outcome(keys, token, cfg, now, already_refreshed) == VerifyStepView::Done(
            Ok::<TokenClaimsView, AuthError>((TokenClaimsView { uid: c.sub, email: c.email })),
        ),
{
    crate::token::lemma_valid_token_accepted(token, pem, cfg, now, c);
}

/// Law: a credential naming a key id absent from the cache asks for exactly
/// one refresh — the first step returns `NeedsRefresh` rather than a
/// failure — and if the key id is still absent after the refresh outcome
/// was applied, the retry fails with `UnknownKey`. (That the cache's other
/// keys survive the refresh outcome is stated by the refresh contracts in
/// `keys`.)
pub proof fn lemma_unknown_key_single_refresh(
    pre_keys: Seq<SigningKeyView>,
    post_keys: Seq<SigningKeyView>,
    token: Seq<char>,
    cfg: VerifierConfigView,
    now: int,
    kid: Seq<char>,
)
    requires
        kid_outcome(token) == Ok::<Seq<char>, AuthError>(kid),
        find_key(pre_keys, kid) is None,
        find_key(post_keys, kid) is None,
    ensures
        verify_step_outcome(pre_keys, token, cfg, now, false) == VerifyStepView::NeedsRefresh(kid),
        verify_step_outcome(post_keys, token, cfg, now, true) == VerifyStepView::Done(
            Err::<TokenClaimsView, AuthError>(AuthError::UnknownKey),
        ),
{
}

} // verus!
