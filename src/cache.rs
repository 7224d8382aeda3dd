use vstd::prelude::*;
use vstd::slice::slice_to_vec;
use crate::request::RequestKey;

verus! {

/// Lifetime of a cached response when none is given, in seconds.
pub const DEFAULT_LIFETIME_SECS: u64 = 60;

/// The abstract value of a request key.
pub type KeyView = (crate::request::Method, Seq<char>, Seq<(Seq<char>, Seq<char>)>);

/// An entry captured at `captured` is still fresh at `now`.
pub open spec fn is_fresh(captured: u64, now: u64, lifetime_secs: u64) -> bool {
    now - captured < lifetime_secs * 1000
}

/// What a lookup of `k` at `now` returns.
pub open spec fn lookup_spec(
    m: Map<KeyView, (Seq<u8>, u64)>,
    lifetime_secs: u64,
    k: KeyView,
    now: u64,
) -> Option<Seq<u8>> {
    if m.contains_key(k) && is_fresh(m[k].1, now, lifetime_secs) {
        Some(m[k].0)
    } else {
        None
    }
}

/// A body stored at `t0` under `k` is found by a lookup at `t0 + L - eps`
/// and no longer at `t0 + L + eps`, where `L` is the lifetime in
/// milliseconds and `eps` any positive number of milliseconds within it.
pub proof fn lemma_lifetime_boundary(
    m: Map<KeyView, (Seq<u8>, u64)>,
    lifetime_secs: u64,
    k: KeyView,
    body: Seq<u8>,
    t0: u64,
    eps: u64,
)
    requires
        0 < eps <= lifetime_secs * 1000,
        t0 + lifetime_secs * 1000 + eps <= u64::MAX,
    ensures
        lookup_spec(
            m.insert(k, (body, t0)),
            lifetime_secs,
            k,
            (t0 + lifetime_secs * 1000 - eps) as u64,
        ) == Some(body),
        lookup_spec(
            m.insert(k, (body, t0)),
            lifetime_secs,
            k,
            (t0 + lifetime_secs * 1000 + eps) as u64,
        ) is None,
{
}

/// Storing a body and looking its key up at the same moment returns exactly
/// that body, whenever the lifetime is not zero.
pub proof fn lemma_store_then_lookup(
    m: Map<KeyView, (Seq<u8>, u64)>,
    lifetime_secs: u64,
    k: KeyView,
    body: Seq<u8>,
    now: u64,
)
    requires
        lifetime_secs > 0,
    ensures
        lookup_spec(m.insert(k, (body, now)), lifetime_secs, k, now) == Some(body),
{
}

struct CacheEntry {
    key: RequestKey,
    body: Vec<u8>,
    captured_at: u64,
}

/// The last successful body per request, each valid for a fixed lifetime
/// after it was stored. Stale entries stay until the same key is stored again.
pub struct ResponseCache {
    lifetime_secs: u64,
    entries: Vec<CacheEntry>,
    stored: Ghost<Map<KeyView, (Seq<u8>, u64)>>,
}

impl View for ResponseCache {
    type V = Map<KeyView, (Seq<u8>, u64)>;

    closed spec fn view(&self) -> Map<KeyView, (Seq<u8>, u64)> {
        self.stored@
    }
}

impl ResponseCache {
    pub closed spec fn spec_lifetime_secs(&self) -> u64 {
        self.lifetime_secs
    }

    /// One entry per stored key, in agreement with the map of bodies.
    pub closed spec fn wf(&self) -> bool {
        &&& forall|i: int, j: int|
            0 <= i < j < self.entries@.len() ==> (#[trigger] self.entries@[i]).key@
                != (#[trigger] self.entries@[j]).key@
        &&& forall|i: int|
            0 <= i < self.entries@.len() ==> self.stored@.contains_key(
                (#[trigger] self.entries@[i]).key@,
            ) && self.stored@[self.entries@[i].key@] == (
                self.entries@[i].body@,
                self.entries@[i].captured_at,
            )
        &&& forall|k: KeyView|
            #[trigger] self.stored@.contains_key(k) ==> exists|i: int|
                0 <= i < self.entries@.len() && (#[trigger] self.entries@[i]).key@ == k
    }

    /// An empty cache whose entries stay fresh for `lifetime_secs` seconds.
    pub fn new(lifetime_secs: u64) -> (r: ResponseCache)
        ensures
            r.wf(),
            r@ == Map::<KeyView, (Seq<u8>, u64)>::empty(),
            r.spec_lifetime_secs() == lifetime_secs,
    {
        ResponseCache { lifetime_secs, entries: Vec::new(), stored: Ghost(Map::empty()) }
    }

    /// An empty cache with the default lifetime.
    pub fn with_default_lifetime() -> (r: ResponseCache)
        ensures
            r.wf(),
            r@ == Map::<KeyView, (Seq<u8>, u64)>::empty(),
            r.spec_lifetime_secs() == DEFAULT_LIFETIME_SECS,
    {
        ResponseCache::new(DEFAULT_LIFETIME_SECS)
    }

    pub fn lifetime_secs(&self) -> (r: u64)
        ensures
            r == self.spec_lifetime_secs(),
    {
        self.lifetime_secs
    }

    fn find(&self, key: &RequestKey) -> (r: Option<usize>)
        requires
            self.wf(),
        ensures
            match r {
                Some(i) => i < self.entries@.len() && self.entries@[i as int].key@ == key@
                    && self@.contains_key(key@),
                None => !self@.contains_key(key@),
            },
    {
        let mut i: usize = 0;
        while i < self.entries.len()
            invariant
                self.wf(),
                i <= self.entries@.len(),
                forall|j: int| 0 <= j < i ==> (#[trigger] self.entries@[j]).key@ != key@,
            decreases self.entries@.len() - i,
        {
            if self.entries[i].key.same_as(key) {
                return Some(i);
            }
            i = i + 1;
        }
        None
    }

    /// The body stored under `key`, if there is one and it is still fresh at `now`.
    pub fn lookup(&self, key: &RequestKey, now: u64) -> (r: Option<Vec<u8>>)
        requires
            self.wf(),
        ensures
            match r {
                Some(b) => lookup_spec(self@, self.spec_lifetime_secs(), key@, now) == Some(b@),
                None => lookup_spec(self@, self.spec_lifetime_secs(), key@, now) is None,
            },
    {
        match self.find(key) {
            None => None,
            Some(i) => {
                let e = &self.entries[i];
                let fresh = if now < e.captured_at {
                    true
                } else {
                    ((now - e.captured_at) as u128) < (self.lifetime_secs as u128) * 1000
                };
                if fresh {
                    Some(slice_to_vec(e.body.as_slice()))
                } else {
                    None
                }
            },
        }
    }

    /// Stores `body` under `key` at `now`, replacing any earlier entry, and
    /// hands the body back.
    pub fn store(&mut self, key: RequestKey, body: Vec<u8>, now: u64) -> (r: Vec<u8>)
        requires
            old(self).wf(),
        ensures
            final(self).wf(),
            final(self)@ == old(self)@.insert(key@, (body@, now)),
            final(self).spec_lifetime_secs() == old(self).spec_lifetime_secs(),
            r@ == body@,
    {
        let ghost before = self.entries@;
        let ghost k = key@;
        let copy = slice_to_vec(body.as_slice());
        let found = self.find(&key);
        let entry = CacheEntry { key, body, captured_at: now };
        match found {
            Some(i) => {
                self.entries.set(i, entry);
                proof {
                    assert(self.entries@ == before.update(i as int, self.entries@[i as int]));
                }
            },
            None => {
                self.entries.push(entry);
            },
        }
        self.stored = Ghost(self.stored@.insert(k, (copy@, now)));
        proof {
            assert forall|q: KeyView| #[trigger]
                self.stored@.contains_key(q) implies exists|j: int|
                0 <= j < self.entries@.len() && (#[trigger] self.entries@[j]).key@ == q by {
                if q != k {
                    let j = choose|j: int|
                        0 <= j < before.len() && (#[trigger] before[j]).key@ == q;
                    assert(self.entries@[j].key@ == q);
                } else {
                    match found {
                        Some(i) => assert(self.entries@[i as int].key@ == q),
                        None => assert(self.entries@[before.len() as int].key@ == q),
                    }
                }
            }
        }
        copy
    }
}

} // verus!
