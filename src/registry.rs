use vstd::prelude::*;
use vstd::slice::slice_to_vec;
use crate::limiter::{
    RateLimiter,
    acquire_all,
    all_ready,
    max_wait,
    take_all,
    taken,
};
use crate::quota::{MalformedQuota, QuotaSegment, interval_of, parse_quota, quota_of};

verus! {

/// Name of the scope that every request consults first.
pub const GLOBAL_SCOPE: &'static str = "global";

/// The limiters of one configured scope.
struct ScopeLimiters {
    scope: String,
    limiters: Vec<RateLimiter>,
}

/// What is known of a scope: nothing yet, or the limiters learned from
/// the first response that carried a quota for it.
#[derive(Debug, PartialEq, Eq)]
pub enum ScopeState {
    Unconfigured,
    Configured(Vec<RateLimiter>),
}

/// The limiters a quota yields at `now`: one per segment, each created with
/// a token and then acquired once.
pub open spec fn fresh_limiters(segs: Seq<QuotaSegment>, now: u64) -> Seq<RateLimiter> {
    segs.map_values(
        |q: QuotaSegment| taken(RateLimiter { interval_ms: interval_of(q) as u64, ready_at: 0 }, now),
    )
}

/// Configuration of `scope` from an optional quota header: the new scope map
/// and whether a limiter set was created. A configured scope is never
/// configured again; a missing header changes nothing.
pub open spec fn configure_spec(
    m: Map<Seq<char>, Seq<RateLimiter>>,
    scope: Seq<char>,
    header: Option<Seq<u8>>,
    now: u64,
) -> (Map<Seq<char>, Seq<RateLimiter>>, Result<bool, MalformedQuota>) {
    if m.contains_key(scope) {
        (m, Ok(false))
    } else {
        match header {
            None => (m, Ok(false)),
            Some(h) => match quota_of(h) {
                None => (m, Err(MalformedQuota)),
                Some(segs) => (m.insert(scope, fresh_limiters(segs, now)), Ok(true)),
            },
        }
    }
}

/// The bytes of an optional header.
pub open spec fn header_view(header: Option<Vec<u8>>) -> Option<Seq<u8>> {
    match header {
        Some(h) => Some(h@),
        None => None,
    }
}

/// Gating of `scope` at `now`: the new scope map and the wait in
/// milliseconds, zero when the request may go.
pub open spec fn acquire_spec(m: Map<Seq<char>, Seq<RateLimiter>>, scope: Seq<char>, now: u64) -> (
    Map<Seq<char>, Seq<RateLimiter>>,
    nat,
) {
    if !m.contains_key(scope) {
        (m, 0)
    } else if all_ready(m[scope], now) {
        (m.insert(scope, take_all(m[scope], now)), 0)
    } else {
        (m, max_wait(m[scope], now))
    }
}

/// A configured scope stays configured through every configuration and
/// every gating, of any scope, and its limiters keep their intervals.
pub proof fn lemma_configuration_is_permanent(
    m: Map<Seq<char>, Seq<RateLimiter>>,
    scope: Seq<char>,
    other: Seq<char>,
    header: Option<Seq<u8>>,
    now: u64,
)
    requires
        m.contains_key(scope),
    ensures
        configure_spec(m, other, header, now).0.contains_key(scope),
        configure_spec(m, other, header, now).0[scope] == m[scope],
        acquire_spec(m, other, now).0.contains_key(scope),
        acquire_spec(m, other, now).0[scope].len() == m[scope].len(),
        forall|i: int|
            0 <= i < m[scope].len() ==> (#[trigger] acquire_spec(m, other, now).0[scope][i]).interval_ms
                == m[scope][i].interval_ms,
{
}

/// Limiters per scope, created lazily from provider feedback.
pub struct RateLimiterRegistry {
    entries: Vec<ScopeLimiters>,
    scopes: Ghost<Map<Seq<char>, Seq<RateLimiter>>>,
}

impl View for RateLimiterRegistry {
    type V = Map<Seq<char>, Seq<RateLimiter>>;

    closed spec fn view(&self) -> Map<Seq<char>, Seq<RateLimiter>> {
        self.scopes@
    }
}

impl RateLimiterRegistry {
    /// One entry per configured scope, in agreement with the scope map.
    pub closed spec fn wf(&self) -> bool {
        &&& forall|i: int, j: int|
            0 <= i < j < self.entries@.len() ==> (#[trigger] self.entries@[i]).scope@
                != (#[trigger] self.entries@[j]).scope@
        &&& forall|i: int|
            0 <= i < self.entries@.len() ==> self.scopes@.contains_key(
                (#[trigger] self.entries@[i]).scope@,
            ) && self.scopes@[self.entries@[i].scope@] == self.entries@[i].limiters@
        &&& forall|k: Seq<char>|
            #[trigger] self.scopes@.contains_key(k) ==> exists|i: int|
                0 <= i < self.entries@.len() && (#[trigger] self.entries@[i]).scope@ == k
    }

    /// A registry in which every scope is unconfigured.
    pub fn new() -> (r: RateLimiterRegistry)
        ensures
            r.wf(),
            r@ == Map::<Seq<char>, Seq<RateLimiter>>::empty(),
    {
        RateLimiterRegistry { entries: Vec::new(), scopes: Ghost(Map::empty()) }
    }

    fn find(&self, scope: &String) -> (r: Option<usize>)
        requires
            self.wf(),
        ensures
            match r {
                Some(i) => i < self.entries@.len() && self.entries@[i as int].scope@ == scope@
                    && self@.contains_key(scope@),
                None => !self@.contains_key(scope@),
            },
    {
        let mut i: usize = 0;
        while i < self.entries.len()
            invariant
                self.wf(),
                i <= self.entries@.len(),
                forall|j: int| 0 <= j < i ==> (#[trigger] self.entries@[j]).scope@ != scope@,
            decreases self.entries@.len() - i,
        {
            if self.entries[i].scope == *scope {
                return Some(i);
            }
            i = i + 1;
        }
        None
    }

    /// Whether `scope` has learned its limiters.
    pub fn is_configured(&self, scope: &str) -> (r: bool)
        requires
            self.wf(),
        ensures
            r == self@.contains_key(scope@),
    {
        let key = scope.to_owned();
        self.find(&key).is_some()
    }

    /// The state of `scope`.
    pub fn state(&self, scope: &str) -> (r: ScopeState)
        requires
            self.wf(),
        ensures
            match r {
                ScopeState::Unconfigured => !self@.contains_key(scope@),
                ScopeState::Configured(ls) => self@.contains_key(scope@) && ls@ == self@[scope@],
            },
    {
        let key = scope.to_owned();
        match self.find(&key) {
            None => ScopeState::Unconfigured,
            Some(i) => {
                ScopeState::Configured(slice_to_vec(self.entries[i].limiters.as_slice()))
            },
        }
    }

    /// Gates a request on `scope` at `now`. An unconfigured scope never
    /// blocks. A configured one clears only when every limiter has a token;
    /// then each token is taken and the result is zero. Otherwise nothing is
    /// taken and the result is how long the caller must wait before asking again.
    pub fn acquire(&mut self, scope: &str, now: u64) -> (wait: u64)
        requires
            old(self).wf(),
        ensures
            final(self).wf(),
            (final(self)@, wait as nat) == acquire_spec(old(self)@, scope@, now),
    {
        let key = scope.to_owned();
        match self.find(&key) {
            None => 0,
            Some(i) => {
                let ghost before = self.entries@;
                let mut ls = slice_to_vec(self.entries[i].limiters.as_slice());
                let wait = acquire_all(&mut ls, now);
                if wait == 0 {
                    let name = self.entries[i].scope.clone();
                    self.entries.set(i, ScopeLimiters { scope: name, limiters: ls });
                    self.scopes = Ghost(self.scopes@.insert(key@, take_all(self.scopes@[key@], now)));
                    proof {
                        assert(self.entries@ == before.update(i as int, self.entries@[i as int]));
                        assert forall|k: Seq<char>| #[trigger]
                            self.scopes@.contains_key(k) implies exists|j: int|
                            0 <= j < self.entries@.len() && (#[trigger] self.entries@[j]).scope@
                                == k by {
                            if k != key@ {
                                let j = choose|j: int|
                                    0 <= j < before.len() && (#[trigger] before[j]).scope@ == k;
                                assert(self.entries@[j].scope@ == k);
                            }
                        }
                    }
                }
                wait
            },
        }
    }

    /// Offers the quota header of a response to `scope` at `now`.
    ///
    /// The first response that carries a header for an unconfigured scope
    /// creates its limiters, one per segment, each acquired once because that
    /// response already used a unit; the result is then `Ok(true)`. A
    /// configured scope keeps its limiters whatever the header says, and a
    /// missing header changes nothing (`Ok(false)` in both cases). A header
    /// that does not parse leaves the scope unconfigured and is an error.
    pub fn configure(&mut self, scope: &str, header: &Option<Vec<u8>>, now: u64) -> (r: Result<
        bool,
        MalformedQuota,
    >)
        requires
            old(self).wf(),
        ensures
            final(self).wf(),
            (final(self)@, r) == configure_spec(old(self)@, scope@, header_view(*header), now),
    {
        let key = scope.to_owned();
        if self.find(&key).is_some() {
            return Ok(false);
        }
        match header {
            None => Ok(false),
            Some(h) => match parse_quota(h.as_slice()) {
                Err(e) => Err(e),
                Ok(segs) => {
                    let mut ls: Vec<RateLimiter> = Vec::new();
                    let mut i: usize = 0;
                    while i < segs.len()
                        invariant
                            i <= segs@.len(),
                            forall|k: int| 0 <= k < segs@.len() ==> (#[trigger] segs@[k]).wf(),
                            ls@.len() == i,
                            forall|k: int|
                                0 <= k < i ==> #[trigger] ls@[k] == taken(
                                    RateLimiter {
                                        interval_ms: interval_of(segs@[k]) as u64,
                                        ready_at: 0,
                                    },
                                    now,
                                ),
                        decreases segs@.len() - i,
                    {
                        let mut l = RateLimiter::new(segs[i].interval_ms());
                        l.take(now);
                        ls.push(l);
                        i = i + 1;
                    }
                    proof {
                        assert(ls@ =~= fresh_limiters(segs@, now));
                    }
                    let ghost before = self.entries@;
                    self.entries.push(ScopeLimiters { scope: key, limiters: ls });
                    self.scopes = Ghost(self.scopes@.insert(scope@, fresh_limiters(segs@, now)));
                    proof {
                        assert forall|k: Seq<char>| #[trigger]
                            self.scopes@.contains_key(k) implies exists|j: int|
                            0 <= j < self.entries@.len() && (#[trigger] self.entries@[j]).scope@
                                == k by {
                            if k != scope@ {
                                let j = choose|j: int|
                                    0 <= j < before.len() && (#[trigger] before[j]).scope@ == k;
                                assert(self.entries@[j].scope@ == k);
                            } else {
                                assert(self.entries@[before.len() as int].scope@ == k);
                            }
                        }
                    }
                    Ok(true)
                },
            },
        }
    }
}

} // verus!
