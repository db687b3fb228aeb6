//! Remote signing keys and the cache that holds the current snapshot of them.

use vstd::prelude::*;

verus! {

/// How long a fetched key set may be served before it must be fetched again.
pub const KEY_SET_MAX_AGE_SECS: i64 = 86400;

/// One published RSA public key: its identifier and its base64url-encoded
/// modulus and exponent.
pub struct GoogleJwk {
    pub kid: String,
    pub n: String,
    pub e: String,
}

/// The key collection as published by the key authority.
pub struct GoogleJwks {
    pub keys: Vec<GoogleJwk>,
}

/// A snapshot of the key collection together with the time (Unix seconds)
/// at which it was fetched. It is replaced whole, never edited.
pub struct KeySet {
    pub fetched_at: i64,
    pub jwks: GoogleJwks,
}

/// A snapshot fetched at `fetched_at` may still be served at `now`.
pub open spec fn is_fresh(fetched_at: i64, now: i64) -> bool {
    now - fetched_at < KEY_SET_MAX_AGE_SECS
}


/// Index of the first key whose identifier is `kid`, if any.
pub open spec fn first_key_index(keys: Seq<GoogleJwk>, kid: Seq<char>) -> Option<int> {
    if exists|i: int| 0 <= i < keys.len() && keys[i].kid@ == kid {
        let i = choose|i: int|
            0 <= i < keys.len() && keys[i].kid@ == kid && forall|j: int|
                0 <= j < i ==> keys[j].kid@ != kid;
        Some(i)
    } else {
        None
    }
}

/// Compares two strings character by character.
pub fn same_text(a: &str, b: &str) -> (r: bool)
    ensures
        r == (a@ == b@),
{
    let n = a.unicode_len();
    if n != b.unicode_len() {
        return false;
    }
    let mut i: usize = 0;
    while i < n
        invariant
            n == a@.len(),
            n == b@.len(),
            i <= n,
            forall|j: int| 0 <= j < i ==> a@[j] == b@[j],
        decreases n - i,
    {
        if a.get_char(i) != b.get_char(i) {
            return false;
        }
        i = i + 1;
    }
    assert(a@ =~= b@);
    true
}

/// Looks up the first key whose identifier equals `kid`.
pub fn find_key(keys: &Vec<GoogleJwk>, kid: &str) -> (r: Option<usize>)
    ensures
        match r {
            Some(i) => i < keys@.len() && keys@[i as int].kid@ == kid@ && first_key_index(
                keys@,
                kid@,
            ) == Some(i as int),
            None => first_key_index(keys@, kid@) is None,
        },
{
    let mut i: usize = 0;
    while i < keys.len()
        invariant
            i <= keys@.len(),
            forall|j: int| 0 <= j < i ==> keys@[j].kid@ != kid@,
        decreases keys@.len() - i,
    {
        if same_text(keys[i].kid.as_str(), kid) {
            proof {
                let w = choose|w: int|
                    0 <= w < keys@.len() && keys@[w].kid@ == kid@ && forall|j: int|
                        0 <= j < w ==> keys@[j].kid@ != kid@;
                if w < i {
                } else if w > i as int {
                    assert(keys@[i as int].kid@ == kid@);
                }
            }
            return Some(i);
        }
        i = i + 1;
    }
    None
}

/// Holds at most one key-set snapshot and decides when it must be replaced.
pub struct KeySetCache {
    pub snapshot: Option<KeySet>,
}

impl KeySetCache {
    /// The snapshot that may be served at `now`: the cached one while it is
    /// younger than the freshness window, and none otherwise.
    pub open spec fn servable(&self, now: i64) -> Option<KeySet> {
        match self.snapshot {
            Some(ks) => if is_fresh(ks.fetched_at, now) {
                Some(ks)
            } else {
                None
            },
            None => None,
        }
    }

    /// An empty cache: the first lookup will ask for a fetch.
    pub fn new() -> (r: KeySetCache)
        ensures
            r.snapshot is None,
    {
        KeySetCache { snapshot: None }
    }

    /// Returns the snapshot to verify against at `now`, or `None` when a
    /// fetch of the remote key collection is due first.
    pub fn current(&self, now: i64) -> (r: Option<&KeySet>)
        ensures
            match r {
                Some(ks) => self.servable(now) == Some(*ks),
                None => self.servable(now) is None,
            },
    {
        match &self.snapshot {
            Some(ks) => {
                if (now as i128) - (ks.fetched_at as i128) < (KEY_SET_MAX_AGE_SECS as i128) {
                    Some(ks)
                } else {
                    None
                }
            },
            None => None,
        }
    }

    /// Replaces the snapshot wholesale by a freshly fetched collection.
    pub fn install(&mut self, jwks: GoogleJwks, now: i64)
        ensures
            final(self).snapshot == Some(KeySet { fetched_at: now, jwks }),
    {
        self.snapshot = Some(KeySet { fetched_at: now, jwks });
    }
}

/// A snapshot fetched at `t` is served unchanged at every instant of
/// `[t, t + 24h)`; from `t + 24h` on nothing is served until a fetch is
/// installed, and one installed fetch is then served at once, so a single
/// fetch precedes the next verification.
pub proof fn lemma_key_set_refresh(
    cache: KeySetCache,
    jwks: GoogleJwks,
    t: i64,
    fresh: GoogleJwks,
    refreshed_at: i64,
)
    requires
        cache.snapshot == Some(KeySet { fetched_at: t, jwks }),
    ensures
        forall|now: i64|
            t <= now < t + KEY_SET_MAX_AGE_SECS ==> #[trigger] cache.servable(now) == cache.snapshot,
        forall|now: i64| now >= t + KEY_SET_MAX_AGE_SECS ==> #[trigger] cache.servable(now) is None,
        (KeySetCache { snapshot: Some(KeySet { fetched_at: refreshed_at, jwks: fresh }) }).servable(
            refreshed_at,
        ) == Some(KeySet { fetched_at: refreshed_at, jwks: fresh }),
{
}

} // verus!
