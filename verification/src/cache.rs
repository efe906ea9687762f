//! Token-validation cache: a bounded, TTL-based store of validated claims,
//! and a caching decorator over any token service.
//!
//! A positive validation is cached under the raw token string and served
//! until its TTL elapses; a failed validation is never cached. When the
//! store is full, the least recently inserted entry is evicted; an entry is
//! never served after its TTL elapses, whatever the capacity pressure. An
//! insertion over an existing key replaces it: last write wins.
//!
//! The store itself is implemented here rather than taken from an outside
//! in-memory cache: such a cache evicts by its own clock behind every call,
//! so no contract over its contents could be both sound and strong enough
//! for the properties above, while this store takes the instant as an
//! argument and has them proved.

use vstd::prelude::*;
use vstd::string::{StrSliceExecFns, StringSliceAdditionalSpecFns};
use vstd::utf8::encode_utf8_decode_utf8;

use crate::auth::{TokenData, TokenService};
use crate::breaker::elapsed_ms;
use crate::clock::now_unix_millis;
use crate::error::AuthError;
use crate::user::User;

verus! {

/// Whether two string slices hold the same characters.
fn str_eq(a: &str, b: &str) -> (r: bool)
    ensures
        r == (a@ == b@),
{
    let av: Vec<u8> = a.as_bytes_vec();
    let bv: Vec<u8> = b.as_bytes_vec();
    if av.len() != bv.len() {
        return false;
    }
    let mut i: usize = 0;
    while i < av.len()
        invariant
            i <= av@.len(),
            av@.len() == bv@.len(),
            av@ == a.spec_bytes(),
            bv@ == b.spec_bytes(),
            forall|j: int| 0 <= j < i ==> av@[j] == bv@[j],
        decreases av@.len() - i,
    {
        if av[i] != bv[i] {
            return false;
        }
        i += 1;
    }
    proof {
        assert(av@ =~= bv@);
        encode_utf8_decode_utf8(a@);
        encode_utf8_decode_utf8(b@);
    }
    true
}

/// One cached validation result.
pub struct CacheEntry {
    /// The raw token string the entry is keyed by.
    pub token: String,
    /// The validated claims.
    pub claims: TokenData,
    /// Insertion instant, Unix milliseconds.
    pub inserted_at_ms: u64,
}

/// Index formula for removing one element of an entry sequence.
proof fn lemma_remove_index(s: Seq<CacheEntry>, k: int)
    requires
        0 <= k < s.len(),
    ensures
        s.remove(k).len() == s.len() - 1,
        forall|m: int| 0 <= m < k ==> s.remove(k)[m] == s[m],
        forall|m: int| k <= m < s.len() - 1 ==> s.remove(k)[m] == s[m + 1],
{
}

/// Bounded, TTL-based store of validated claims, keyed by token string.
pub struct TokenCache {
    /// The entries, in insertion order, with distinct tokens.
    pub entries: Vec<CacheEntry>,
    /// Time-to-live of an entry, milliseconds.
    pub ttl_ms: u64,
    /// Upper bound on the number of entries.
    pub max_capacity: usize,
}

impl TokenCache {
    /// Well-formed: within capacity, and no token appears twice.
    pub open spec fn wf(self) -> bool {
        &&& self.entries@.len() <= self.max_capacity
        &&& forall|i: int, j: int|
            0 <= i < j < self.entries@.len() ==> (#[trigger] self.entries@[i].token@)
                != (#[trigger] self.entries@[j].token@)
    }

    /// Whether an entry inserted at `inserted_at_ms` is still within its
    /// TTL at `now_ms`.
    pub open spec fn fresh_at(self, inserted_at_ms: u64, now_ms: u64) -> bool {
        elapsed_ms(now_ms, inserted_at_ms) < self.ttl_ms
    }

    /// Whether some entry is keyed by `t`.
    pub open spec fn has_token(self, t: Seq<char>) -> bool {
        exists|i: int|
            0 <= i < self.entries@.len() && (#[trigger] self.entries@[i].token@) == t
    }

    /// Whether some entry keyed by `t` is within its TTL at `now_ms`.
    pub open spec fn has_fresh(self, t: Seq<char>, now_ms: u64) -> bool {
        exists|i: int|
            0 <= i < self.entries@.len() && (#[trigger] self.entries@[i].token@) == t
                && self.fresh_at(self.entries@[i].inserted_at_ms, now_ms)
    }

    /// Whether a lookup of `t` at `now_ms` is served with exactly these
    /// claims (subject identifier and email).
    pub open spec fn serves(self, t: Seq<char>, now_ms: u64, claims: (u128, Seq<char>)) -> bool {
        exists|i: int|
            {
                &&& 0 <= i < self.entries@.len()
                &&& (#[trigger] self.entries@[i].token@) == t
                &&& self.fresh_at(self.entries@[i].inserted_at_ms, now_ms)
                &&& self.entries@[i].claims.user_id == claims.0
                &&& self.entries@[i].claims.email@ == claims.1
            }
    }

    /// Whether an entry keyed by `t` holds these claims and was inserted at
    /// `at_ms`.
    pub open spec fn stores(self, t: Seq<char>, claims: (u128, Seq<char>), at_ms: u64) -> bool {
        exists|i: int|
            {
                &&& 0 <= i < self.entries@.len()
                &&& (#[trigger] self.entries@[i].token@) == t
                &&& self.entries@[i].inserted_at_ms == at_ms
                &&& self.entries@[i].claims.user_id == claims.0
                &&& self.entries@[i].claims.email@ == claims.1
            }
    }

    /// An empty cache with the given TTL and capacity.
    pub fn new(ttl_ms: u64, max_capacity: usize) -> (r: TokenCache)
        ensures
            r.entries@.len() == 0,
            r.ttl_ms == ttl_ms,
            r.max_capacity == max_capacity,
            r.wf(),
    {
        TokenCache { entries: Vec::new(), ttl_ms, max_capacity }
    }

    /// Look a token up at instant `now_ms`: a copy of the stored claims if
    /// an entry for the token is within its TTL, None otherwise. A stale
    /// entry is never served.
    pub fn lookup(&self, token: &str, now_ms: u64) -> (r: Option<TokenData>)
        ensures
            match r {
                Some(d) => self.serves(token@, now_ms, (d.user_id, d.email@)),
                None => !self.has_fresh(token@, now_ms),
            },
    {
        let n: usize = self.entries.len();
        let mut i: usize = 0;
        while i < n
            invariant
                i <= n,
                n == self.entries@.len(),
                forall|j: int|
                    0 <= j < i ==> !((#[trigger] self.entries@[j].token@) == token@
                        && self.fresh_at(self.entries@[j].inserted_at_ms, now_ms)),
            decreases n - i,
        {
            if str_eq(self.entries[i].token.as_str(), token) {
                if now_ms.saturating_sub(self.entries[i].inserted_at_ms) < self.ttl_ms {
                    return Some(self.entries[i].claims.duplicate());
                }
            }
            i += 1;
        }
        None
    }

    /// Insert claims for a token at instant `now_ms`. An existing entry for
    /// the token is replaced — last write wins. At capacity, the least
    /// recently inserted entry is evicted. Entries for other tokens are
    /// never invented: each survivor was present before.
    pub fn insert(&mut self, token: String, claims: TokenData, now_ms: u64)
        requires
            old(self).wf(),
        ensures
            final(self).wf(),
            final(self).ttl_ms == old(self).ttl_ms,
            final(self).max_capacity == old(self).max_capacity,
            old(self).max_capacity == 0 ==> final(self).entries@ == old(self).entries@,
            old(self).max_capacity >= 1 ==> final(self).stores(
                token@,
                (claims.user_id, claims.email@),
                now_ms,
            ),
            forall|i: int|
                0 <= i < final(self).entries@.len()
                    && (#[trigger] final(self).entries@[i].token@) != token@
                    ==> exists|j: int|
                        0 <= j < old(self).entries@.len()
                            && final(self).entries@[i] == old(self).entries@[j],
            (old(self).max_capacity >= 1 && !old(self).has_token(token@)
                && old(self).entries@.len() < old(self).max_capacity) ==> {
                &&& final(self).entries@.len() == old(self).entries@.len() + 1
                &&& forall|j: int|
                    0 <= j < old(self).entries@.len()
                        ==> final(self).entries@[j] == old(self).entries@[j]
            },
    {
        if self.max_capacity == 0 {
            return ;
        }
        let ghost s0 = self.entries@;

        // Find the entry already keyed by this token, if any; under wf
        // there is at most one.
        let n: usize = self.entries.len();
        let mut i: usize = 0;
        let mut found: bool = false;
        let mut found_at: usize = 0;
        while i < n
            invariant
                i <= n,
                n == self.entries@.len(),
                *self == *old(self),
                !found ==> forall|j: int|
                    0 <= j < i ==> (#[trigger] self.entries@[j].token@) != token@,
                found ==> found_at < i && self.entries@[found_at as int].token@ == token@,
            decreases n - i,
        {
            if !found && str_eq(self.entries[i].token.as_str(), token.as_str()) {
                found = true;
                found_at = i;
            }
            i += 1;
        }
        if found {
            self.entries.remove(found_at);
            proof {
                lemma_remove_index(s0, found_at as int);
            }
        }
        let ghost s1 = self.entries@;
        proof {
            // After dropping the match, no entry is keyed by the token, the
            // tokens stay pairwise distinct, and every entry comes from s0.
            assert forall|m: int| #![trigger s1[m]] 0 <= m < s1.len() implies exists|j: int|
                #![trigger s0[j]]
                0 <= j < s0.len() && s1[m] == s0[j] by {
                if found {
                    if m < found_at {
                        assert(s1[m] == s0[m]);
                    } else {
                        assert(s1[m] == s0[m + 1]);
                    }
                } else {
                    assert(s1[m] == s0[m]);
                }
            };
            assert forall|m: int| 0 <= m < s1.len() implies (#[trigger] s1[m].token@)
                != token@ by {
                if found {
                    if m < found_at {
                        assert(s1[m] == s0[m]);
                        assert(s0[m].token@ != s0[found_at as int].token@);
                    } else {
                        assert(s1[m] == s0[m + 1]);
                        assert(s0[found_at as int].token@ != s0[m + 1].token@);
                    }
                } else {
                    assert(s1[m] == s0[m]);
                }
            };
            assert forall|m: int, m2: int| 0 <= m < m2 < s1.len() implies (#[trigger] s1[m].token@)
                != (#[trigger] s1[m2].token@) by {
                if found {
                    if m < found_at {
                        assert(s1[m] == s0[m]);
                    } else {
                        assert(s1[m] == s0[m + 1]);
                    }
                    if m2 < found_at {
                        assert(s1[m2] == s0[m2]);
                    } else {
                        assert(s1[m2] == s0[m2 + 1]);
                    }
                } else {
                    assert(s1[m] == s0[m]);
                    assert(s1[m2] == s0[m2]);
                }
            };
        }

        // At capacity: evict the least recently inserted entry.
        let ghost evicted = self.entries@.len() == self.max_capacity;
        if self.entries.len() == self.max_capacity {
            self.entries.remove(0);
            proof {
                lemma_remove_index(s1, 0);
            }
        }
        let ghost s2 = self.entries@;
        proof {
            assert forall|m: int| 0 <= m < s2.len() implies (#[trigger] s2[m].token@) != token@
                && (exists|j: int| #![trigger s0[j]] 0 <= j < s0.len() && s2[m] == s0[j]) by {
                if evicted {
                    assert(s2[m] == s1[m + 1]);
                } else {
                    assert(s2[m] == s1[m]);
                }
            };
            assert forall|m: int, m2: int| 0 <= m < m2 < s2.len() implies (#[trigger] s2[m].token@)
                != (#[trigger] s2[m2].token@) by {
                if evicted {
                    assert(s2[m] == s1[m + 1]);
                    assert(s2[m2] == s1[m2 + 1]);
                } else {
                    assert(s2[m] == s1[m]);
                    assert(s2[m2] == s1[m2]);
                }
            };
            assert(s2.len() < self.max_capacity);
        }
        let ghost new_token = token@;
        let ghost new_uid = claims.user_id;
        let ghost new_email = claims.email@;
        self.entries.push(CacheEntry { token, claims, inserted_at_ms: now_ms });
        proof {
            let sf = self.entries@;
            let last = sf.len() - 1;
            assert(sf[last].token@ == new_token);
            assert(sf[last].inserted_at_ms == now_ms);
            assert(sf[last].claims.user_id == new_uid);
            assert(sf[last].claims.email@ == new_email);
            assert(self.stores(new_token, (new_uid, new_email), now_ms));
            assert forall|i2: int, j2: int| 0 <= i2 < j2 < sf.len() implies sf[i2].token@
                != sf[j2].token@ by {
                assert(sf[i2] == s2[i2]);
                if j2 < last {
                    assert(sf[j2] == s2[j2]);
                }
            };
            assert forall|i2: int|
                0 <= i2 < sf.len() && (#[trigger] sf[i2].token@) != new_token implies exists|
                j: int,
            |
                #![trigger s0[j]]
                0 <= j < s0.len() && sf[i2] == s0[j] by {
                assert(i2 < last);
                assert(sf[i2] == s2[i2]);
            };
            if !old(self).has_token(new_token) && s0.len() < self.max_capacity {
                assert(!found) by {
                    if found {
                        assert(s0[found_at as int].token@ == new_token);
                    }
                }
                assert(s1 == s0);
                assert(!evicted);
                assert(s2 == s0);
                assert(forall|j: int| 0 <= j < s0.len() ==> sf[j] == #[trigger] s0[j]);
            }
        }
    }
}

/// A lookup within the TTL of stored claims is served, and served with
/// exactly the stored claims: a hit returns what the cache holds.
pub proof fn lemma_cached_claims_identical(
    c: TokenCache,
    t: Seq<char>,
    claims: (u128, Seq<char>),
    inserted_ms: u64,
    lookup_ms: u64,
)
    requires
        c.wf(),
        c.stores(t, claims, inserted_ms),
        c.fresh_at(inserted_ms, lookup_ms),
    ensures
        c.has_fresh(t, lookup_ms),
        c.serves(t, lookup_ms, claims),
        forall|other: (u128, Seq<char>)| #[trigger] c.serves(t, lookup_ms, other)
            ==> other.0 == claims.0 && other.1 == claims.1,
{
    let i = choose|i: int|
        {
            &&& 0 <= i < c.entries@.len()
            &&& (#[trigger] c.entries@[i].token@) == t
            &&& c.entries@[i].inserted_at_ms == inserted_ms
            &&& c.entries@[i].claims.user_id == claims.0
            &&& c.entries@[i].claims.email@ == claims.1
        };
    assert(c.serves(t, lookup_ms, claims));
    assert forall|other: (u128, Seq<char>)| #[trigger] c.serves(t, lookup_ms, other)
        implies other.0 == claims.0 && other.1 == claims.1 by {
        let j = choose|j: int|
            {
                &&& 0 <= j < c.entries@.len()
                &&& (#[trigger] c.entries@[j].token@) == t
                &&& c.fresh_at(c.entries@[j].inserted_at_ms, lookup_ms)
                &&& c.entries@[j].claims.user_id == other.0
                &&& c.entries@[j].claims.email@ == other.1
            };
        if i < j {
            assert(c.entries@[i].token@ != c.entries@[j].token@);
        } else if j < i {
            assert(c.entries@[j].token@ != c.entries@[i].token@);
        }
    }
}

/// How one validation call relates the cache before and after: a fresh hit
/// leaves the cache untouched and returns the stored claims; a miss whose
/// downstream validation succeeded has the result cached (capacity
/// permitting) at the instant of the call.
pub open spec fn spec_validated(
    pre: TokenCache,
    post: TokenCache,
    t: Seq<char>,
    now_ms: u64,
    claims: (u128, Seq<char>),
) -> bool {
    if pre.has_fresh(t, now_ms) {
        post == pre && pre.serves(t, now_ms, claims)
    } else {
        pre.max_capacity >= 1 ==> post.stores(t, claims, now_ms)
    }
}

/// A caching decorator over a token service: token creation passes
/// through untouched and is never cached; validation results are cached by
/// token string.
pub struct CachedTokenService<T> {
    /// The wrapped token service.
    pub inner: T,
    /// The bounded, TTL-based store of validated claims.
    pub cache: TokenCache,
}

impl<T: TokenService> CachedTokenService<T> {
    /// Wrap a token service with a cache holding at most `max_capacity`
    /// validation results for `ttl_secs` seconds each.
    pub fn new(inner: T, ttl_secs: u64, max_capacity: usize) -> (r: CachedTokenService<T>)
        ensures
            r.cache.entries@.len() == 0,
            r.cache.wf(),
            r.cache.max_capacity == max_capacity,
            r.cache.ttl_ms as int == if ttl_secs * 1000 <= u64::MAX as int {
                ttl_secs * 1000
            } else {
                u64::MAX as int
            },
    {
        let ttl_ms: u64 = match ttl_secs.checked_mul(1000) {
            Some(v) => v,
            None => u64::MAX,
        };
        CachedTokenService { inner, cache: TokenCache::new(ttl_ms, max_capacity) }
    }

    /// Create a token: a pure pass-through to the wrapped service, never
    /// cached — the result is the wrapped service's own answer.
    pub fn create_token(&self, user: &User) -> (r: Result<String, AuthError>)
        ensures
            r matches Err(e) ==> e is Internal,
            exists|iref: &T|
                *iref == self.inner && #[trigger] call_ensures(
                    T::create_token,
                    (iref, user),
                    r,
                ),
    {
        let r = self.inner.create_token(user);
        proof {
            assert(call_ensures(T::create_token, (&self.inner, user), r));
        }
        r
    }

    /// Validate a token at instant `now_ms`: a fresh cache hit is returned
    /// without consulting the wrapped service and leaves the cache
    /// untouched; on a miss the wrapped service decides, a success is
    /// cached at `now_ms`, and a failure is propagated with nothing cached.
    pub fn validate_token_at(&mut self, token: &str, now_ms: u64) -> (r: Result<
        TokenData,
        AuthError,
    >)
        requires
            old(self).cache.wf(),
        ensures
            final(self).cache.wf(),
            final(self).cache.ttl_ms == old(self).cache.ttl_ms,
            final(self).cache.max_capacity == old(self).cache.max_capacity,
            old(self).cache.has_fresh(token@, now_ms) ==> final(self).cache == old(self).cache
                && (r matches Ok(d) && old(self).cache.serves(token@, now_ms, (d.user_id, d.email@))),
            r matches Err(e) ==> {
                &&& final(self).cache.entries@ == old(self).cache.entries@
                &&& !old(self).cache.has_fresh(token@, now_ms)
                &&& (e is InvalidToken || e is TokenExpired || e is Internal)
            },
            !old(self).cache.has_fresh(token@, now_ms) && old(self).cache.max_capacity >= 1
                ==> (r matches Ok(d) ==> final(self).cache.stores(
                token@,
                (d.user_id, d.email@),
                now_ms,
            )),
            !old(self).cache.has_fresh(token@, now_ms) ==> exists|iref: &T|
                *iref == old(self).inner && #[trigger] call_ensures(
                    T::validate_token,
                    (iref, token),
                    r,
                ),
    {
        match self.cache.lookup(token, now_ms) {
            Some(d) => Ok(d),
            None => {
                let answer = self.inner.validate_token(token);
                proof {
                    assert(call_ensures(T::validate_token, (&self.inner, token), answer));
                }
                match answer {
                    Ok(d) => {
                        let copy = d.duplicate();
                        self.cache.insert(token.to_owned(), copy, now_ms);
                        let r = Ok(d);
                        proof {
                            assert(call_ensures(T::validate_token, (&self.inner, token), r));
                        }
                        r
                    },
                    Err(e) => Err(e),
                }
            },
        }
    }

    /// Validate a token against the wall clock. A failed validation is
    /// never cached: on any error the cache is exactly as it was and the
    /// error is the wrapped service's own answer, propagated unchanged. A
    /// successful result relates the cache before and after as one
    /// validation at some instant.
    pub fn validate_token(&mut self, token: &str) -> (r: Result<TokenData, AuthError>)
        requires
            old(self).cache.wf(),
        ensures
            final(self).cache.wf(),
            final(self).cache.ttl_ms == old(self).cache.ttl_ms,
            final(self).cache.max_capacity == old(self).cache.max_capacity,
            r matches Err(e) ==> {
                &&& final(self).cache.entries@ == old(self).cache.entries@
                &&& (e is InvalidToken || e is TokenExpired || e is Internal)
            },
            r is Err ==> exists|iref: &T|
                *iref == old(self).inner && #[trigger] call_ensures(
                    T::validate_token,
                    (iref, token),
                    r,
                ),
            r matches Ok(d) ==> exists|now_ms: u64| #[trigger] spec_validated(
                old(self).cache,
                final(self).cache,
                token@,
                now_ms,
                (d.user_id, d.email@),
            ),
    {
        let now_ms = now_unix_millis();
        let r = self.validate_token_at(token, now_ms);
        proof {
            match &r {
                Ok(d) => {
                    assert(spec_validated(
                        old(self).cache,
                        self.cache,
                        token@,
                        now_ms,
                        (d.user_id, d.email@),
                    ));
                },
                Err(_) => {},
            }
        }
        r
    }
}

} // verus!
