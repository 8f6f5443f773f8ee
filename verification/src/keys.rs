//! The signing-key cache: immutable snapshots of the identity provider's
//! public keys, atomic snapshot replacement, and the single-flight refresh
//! coordination state.
//!
//! A snapshot is built from the `(key id, PEM bytes)` pairs the provider
//! publishes; pairs whose bytes are not an acceptable RSA public key are
//! dropped, the rest are kept in order. The cache holds exactly one current
//! snapshot; a refresh outcome either replaces it whole or leaves it whole.

use vstd::prelude::*;

use crate::error::AuthError;

verus! {

/// Whether `jsonwebtoken::DecodingKey::from_rsa_pem` accepts these bytes as
/// an RSA public key in PEM form. A property of the bytes alone.
pub uninterp spec fn rsa_pem_accepts(pem: Seq<u8>) -> bool;

/// Relies on jsonwebtoken::DecodingKey::from_rsa_pem: whether the bytes
/// parse as a PEM-encoded RSA public key depends on the bytes alone.
#[verifier::external_body]
fn pem_is_valid_rsa(pem: &Vec<u8>) -> (r: bool)
    ensures
        r == rsa_pem_accepts(pem@),
{
    jsonwebtoken::DecodingKey::from_rsa_pem(pem.as_slice()).is_ok()
}

/// One public signing key, as published by the identity provider: a key id
/// and the PEM bytes of the public key. Never contains private material.
pub struct SigningKey {
    pub key_id: String,
    pub pem: Vec<u8>,
}

/// The mathematical value of a `SigningKey`.
pub struct SigningKeyView {
    pub key_id: Seq<char>,
    pub pem: Seq<u8>,
}

impl View for SigningKey {
    type V = SigningKeyView;

    open spec fn view(&self) -> SigningKeyView {
        SigningKeyView { key_id: self.key_id@, pem: self.pem@ }
    }
}

impl DeepView for SigningKey {
    type V = SigningKeyView;

    open spec fn deep_view(&self) -> SigningKeyView {
        self.view()
    }
}

/// The PEM bytes of the first key in `keys` whose id is `kid`, if any.
pub open spec fn find_key(keys: Seq<SigningKeyView>, kid: Seq<char>) -> Option<Seq<u8>>
    decreases keys.len(),
{
    if keys.len() == 0 {
        None
    } else if keys.first().key_id == kid {
        Some(keys.first().pem)
    } else {
        find_key(keys.drop_first(), kid)
    }
}

/// The keys that a snapshot built from `entries` keeps: those whose bytes
/// are an acceptable RSA public key, in publication order.
pub open spec fn accepted_keys(entries: Seq<(Seq<char>, Seq<u8>)>) -> Seq<SigningKeyView>
    decreases entries.len(),
{
    if entries.len() == 0 {
        Seq::empty()
    } else {
        let init = accepted_keys(entries.drop_last());
        let last = entries.last();
        if rsa_pem_accepts(last.1) {
            init.push(SigningKeyView { key_id: last.0, pem: last.1 })
        } else {
            init
        }
    }
}

/// An immutable set of signing keys fetched at one instant, keyed by key id.
pub struct KeySnapshot {
    pub keys: Vec<SigningKey>,
    pub fetched_at: u64,
}

impl KeySnapshot {
    /// The snapshot's contents as a mapping from key id to PEM bytes;
    /// where an id repeats, the first occurrence governs.
    pub open spec fn spec_lookup(&self, kid: Seq<char>) -> Option<Seq<u8>> {
        find_key(self.keys.deep_view(), kid)
    }

    /// The snapshot before any fetch has succeeded: no keys at all.
    pub fn empty() -> (s: Self)
        ensures
            s.keys.deep_view() == Seq::<SigningKeyView>::empty(),
            s.fetched_at == 0,
    {
        let s = KeySnapshot { keys: Vec::new(), fetched_at: 0 };
        assert(s.keys.deep_view() =~= Seq::<SigningKeyView>::empty());
        s
    }

    /// Build a complete snapshot from the pairs the provider published.
    /// Pairs whose bytes are not an acceptable RSA public key are dropped;
    /// every other pair is kept, in order.
    pub fn build(entries: Vec<(String, Vec<u8>)>, fetched_at: u64) -> (s: Self)
        ensures
            s.keys.deep_view() == accepted_keys(entries.deep_view()),
            s.fetched_at == fetched_at,
    {
        let ghost all = entries.deep_view();
        let mut keys: Vec<SigningKey> = Vec::new();
        assert(keys.deep_view() =~= accepted_keys(all.take(0)));
        let n = entries.len();
        for i in 0..n
            invariant
                n == entries.len(),
                all == entries.deep_view(),
                keys.deep_view() =~= accepted_keys(all.take(i as int)),
        {
            let ghost prev = keys.deep_view();
            let (kid, pem) = (entries[i].0.clone(), entries[i].1.clone());
            assert(pem@ =~= entries[i as int].1@);
            assert(kid@ == all[i as int].0 && pem@ == all[i as int].1);
            assert(all.take(i + 1).drop_last() =~= all.take(i as int));
            assert(all.take(i + 1).last() == all[i as int]);
            if pem_is_valid_rsa(&pem) {
                let ghost kv = SigningKeyView { key_id: kid@, pem: pem@ };
                keys.push(SigningKey { key_id: kid, pem });
                assert(keys.deep_view() =~= prev.push(kv));
            }
            assert(keys.deep_view() =~= accepted_keys(all.take(i + 1)));
        }
        assert(all.take(n as int) =~= all);
        KeySnapshot { keys, fetched_at }
    }

    /// Find the signing key with the given id in this snapshot.
    pub fn lookup(&self, kid: &str) -> (r: Option<&SigningKey>)
        ensures
            match r {
                Some(k) => self.spec_lookup(kid@) == Some(k.pem@) && k.key_id@ == kid@,
                None => self.spec_lookup(kid@) is None,
            },
    {
        let kid_owned: String = kid.to_owned();
        let n = self.keys.len();
        assert(self.keys.deep_view().skip(0) =~= self.keys.deep_view());
        for i in 0..n
            invariant
                n == self.keys.len(),
                kid_owned@ == kid@,
                find_key(self.keys.deep_view().skip(i as int), kid@) == self.spec_lookup(kid@),
        {
            let ghost rest = self.keys.deep_view().skip(i as int);
            assert(rest.first() == self.keys.deep_view()[i as int]);
            assert(rest.drop_first() =~= self.keys.deep_view().skip(i + 1));
            if self.keys[i].key_id == kid_owned {
                return Some(&self.keys[i]);
            }
        }
        assert(self.keys.deep_view().skip(n as int) =~= Seq::<SigningKeyView>::empty());
        None
    }
}

/// A failure of the key provider: the fetch did not produce a snapshot.
#[derive(Debug, Clone, Copy, PartialEq, Eq, Structural)]
pub enum ProviderError {
    /// The provider could not be reached, or the request timed out.
    Network,
    /// The provider's response was not the expected key mapping.
    Parse,
}

/// The one piece of state shared across requests: the current key snapshot.
/// Lookups read the current snapshot; a refresh outcome replaces it whole
/// (on success) or leaves it whole (on failure) — stale keys are preferred
/// over no keys.
pub struct KeyCache {
    current: KeySnapshot,
}

impl KeyCache {
    /// The keys of the current snapshot.
    pub closed spec fn spec_keys(&self) -> Seq<SigningKeyView> {
        self.current.keys.deep_view()
    }

    /// When the current snapshot was fetched.
    pub closed spec fn spec_fetched_at(&self) -> int {
        self.current.fetched_at as int
    }

    /// What a lookup of `kid` against the current snapshot yields.
    pub closed spec fn spec_lookup(&self, kid: Seq<char>) -> Option<Seq<u8>> {
        self.current.spec_lookup(kid)
    }

    /// A cache holding no keys, as it stands before the eager startup fetch.
    pub fn new() -> (c: Self)
        ensures
            c.spec_keys() == Seq::<SigningKeyView>::empty(),
            c.spec_fetched_at() == 0,
    {
        KeyCache { current: KeySnapshot::empty() }
    }

    /// Look up a signing key in the current snapshot. Reads one complete
    /// snapshot and never triggers any fetch of its own.
    pub fn lookup(&self, kid: &str) -> (r: Option<&SigningKey>)
        ensures
            match r {
                Some(k) => self.spec_lookup(kid@) == Some(k.pem@) && k.key_id@ == kid@,
                None => self.spec_lookup(kid@) is None,
            },
    {
        self.current.lookup(kid)
    }

    /// Apply the outcome of one provider fetch. On success the current
    /// snapshot is replaced by the fetched one, whole; on failure it is left
    /// untouched, whole, and the failure is reported as
    /// `KeyProviderUnavailable`.
    pub fn apply_refresh(&mut self, outcome: Result<KeySnapshot, ProviderError>) -> (r: Result<
        (),
        AuthError,
    >)
        ensures
            match outcome {
                Ok(snap) => {
                    &&& r is Ok
                    &&& final(self).spec_keys() == snap.keys.deep_view()
                    &&& final(self).spec_fetched_at() == snap.fetched_at as int
                },
                Err(_) => {
                    &&& r == Err::<(), AuthError>(AuthError::KeyProviderUnavailable)
                    &&& final(self).spec_keys() == old(self).spec_keys()
                    &&& final(self).spec_fetched_at() == old(self).spec_fetched_at()
                },
            },
    {
        match outcome {
            Ok(snap) => {
                self.current = snap;
                Ok(())
            },
            Err(_) => Err(AuthError::KeyProviderUnavailable),
        }
    }
}

/// The single-flight refresh coordination state: at most one provider fetch
/// is in flight at a time, however many requests concurrently miss. A caller
/// that must refresh asks `begin`; only the caller that finds no fetch in
/// flight performs one, every other caller awaits the shared outcome. The
/// start time of the latest fetch is kept so that forced refreshes can be
/// rate-limited.
pub struct RefreshCoordinator {
    in_flight: bool,
    last_started: u64,
}

impl RefreshCoordinator {
    /// Whether a fetch is currently in flight.
    pub closed spec fn spec_in_flight(&self) -> bool {
        self.in_flight
    }

    /// When the latest fetch started; zero before the first one.
    pub closed spec fn spec_last_started(&self) -> int {
        self.last_started as int
    }

    pub fn new() -> (c: Self)
        ensures
            !c.spec_in_flight(),
            c.spec_last_started() == 0,
    {
        RefreshCoordinator { in_flight: false, last_started: 0 }
    }

    /// Whether a refresh asked for at `now` comes too soon after the latest
    /// fetch: within `min_interval` seconds of its start (or under a clock
    /// that went backwards past it). Denying such a refresh keeps repeated
    /// misses for the same unknown key from turning into a fetch storm.
    pub fn throttled(&self, now: u64, min_interval: u64) -> (b: bool)
        ensures
            b == (self.spec_last_started() != 0 && now < self.spec_last_started()
                + min_interval),
    {
        self.last_started != 0 && (now < self.last_started || now - self.last_started
            < min_interval)
    }

    /// Announce that a refresh is wanted at `now`. Returns whether this
    /// caller must perform the fetch itself: true exactly when no fetch was
    /// already in flight. Afterwards one is, started at `now`.
    pub fn begin(&mut self, now: u64) -> (must_fetch: bool)
        ensures
            must_fetch == !old(self).spec_in_flight(),
            final(self).spec_in_flight(),
            final(self).spec_last_started() == if must_fetch {
                now as int
            } else {
                old(self).spec_last_started()
            },
    {
        let must_fetch = !self.in_flight;
        self.in_flight = true;
        if must_fetch {
            self.last_started = now;
        }
        must_fetch
    }

    /// Record that the in-flight fetch has completed and its outcome has
    /// been applied; the next miss may start a fresh fetch.
    pub fn finish(&mut self)
        ensures
            !final(self).spec_in_flight(),
            final(self).spec_last_started() == old(self).spec_last_started(),
    {
        self.in_flight = false;
    }
}

/// A cache lookup is the lookup in its current snapshot's key sequence.
pub broadcast proof fn lemma_cache_lookup_is_find(c: KeyCache, kid: Seq<char>)
    ensures
        #[trigger] c.spec_lookup(kid) == find_key(c.spec_keys(), kid),
{
}

/// Law: a refresh is all-or-nothing. Whatever the outcome of the fetch, a
/// cache to which it was applied holds either the prior key set or the
/// fetched key set in full — never a mixture — and every lookup agrees with
/// one of the two snapshots.
pub proof fn lemma_refresh_snapshot_atomic(
    pre: KeyCache,
    post: KeyCache,
    outcome: Result<KeySnapshot, ProviderError>,
)
    requires
        outcome matches Ok(snap) ==> post.spec_keys() == snap.keys.deep_view(),
        outcome is Err ==> post.spec_keys() == pre.spec_keys(),
    ensures
        post.spec_keys() == pre.spec_keys() || (outcome matches Ok(snap) && post.spec_keys()
            == snap.keys.deep_view()),
        forall|kid: Seq<char>|
            post.spec_lookup(kid) == pre.spec_lookup(kid) || (outcome matches Ok(snap)
                && post.spec_lookup(kid) == find_key(snap.keys.deep_view(), kid)),
{
}

/// Law: a failed refresh leaves the prior snapshot intact — the cache keeps
/// its keys, and every key that could be looked up before can be looked up
/// afterwards, with the same result.
pub proof fn lemma_failed_refresh_preserves_lookups(
    pre: KeyCache,
    post: KeyCache,
    outcome: Result<KeySnapshot, ProviderError>,
)
    requires
        outcome is Err,
        // what `apply_refresh` ensures of a failed outcome
        outcome is Err ==> post.spec_keys() == pre.spec_keys(),
    ensures
        forall|kid: Seq<char>| post.spec_lookup(kid) == pre.spec_lookup(kid),
{
}

} // verus!
