use vstd::prelude::*;

verus! {

/// `a + b`, or `u64::MAX` when the sum does not fit.
pub open spec fn saturating_sum(a: u64, b: nat) -> u64 {
    if a + b > u64::MAX {
        u64::MAX
    } else {
        (a + b) as u64
    }
}

/// A throttle that holds at most one token and refills it once per interval.
///
/// Times are milliseconds on a clock chosen by the caller; the token is
/// available from `ready_at` on.
#[derive(Clone, Copy, Debug, PartialEq, Eq, Structural)]
pub struct RateLimiter {
    pub interval_ms: u64,
    pub ready_at: u64,
}

/// Whether the token is available at `now`.
pub open spec fn is_ready(l: RateLimiter, now: u64) -> bool {
    l.ready_at <= now
}

/// Milliseconds until the token is available; zero when it already is.
pub open spec fn wait_of(l: RateLimiter, now: u64) -> nat {
    if l.ready_at <= now {
        0
    } else {
        (l.ready_at - now) as nat
    }
}

/// The limiter after its token was taken at `now`.
pub open spec fn taken(l: RateLimiter, now: u64) -> RateLimiter {
    RateLimiter { interval_ms: l.interval_ms, ready_at: saturating_sum(now, l.interval_ms as nat) }
}

impl RateLimiter {
    /// A limiter whose token is available at once.
    pub fn new(interval_ms: u64) -> (r: RateLimiter)
        ensures
            r == (RateLimiter { interval_ms, ready_at: 0 }),
    {
        RateLimiter { interval_ms, ready_at: 0 }
    }

    /// Milliseconds until the token is available at `now`.
    pub fn wait_ms(&self, now: u64) -> (r: u64)
        ensures
            r as nat == wait_of(*self, now),
    {
        if self.ready_at <= now {
            0
        } else {
            self.ready_at - now
        }
    }

    /// Takes the token at `now`; the next one comes one interval later.
    pub fn take(&mut self, now: u64)
        ensures
            *final(self) == taken(*old(self), now),
    {
        self.ready_at = now.saturating_add(self.interval_ms);
    }
}

/// Every limiter of the list has its token at `now`.
pub open spec fn all_ready(ls: Seq<RateLimiter>, now: u64) -> bool {
    forall|i: int| 0 <= i < ls.len() ==> is_ready(#[trigger] ls[i], now)
}

/// The longest wait over a list of limiters.
pub open spec fn max_wait(ls: Seq<RateLimiter>, now: u64) -> nat
    decreases ls.len(),
{
    if ls.len() == 0 {
        0
    } else {
        let rest = max_wait(ls.drop_last(), now);
        let w = wait_of(ls.last(), now);
        if rest >= w {
            rest
        } else {
            w
        }
    }
}

/// Every limiter of the list with its token taken at `now`.
pub open spec fn take_all(ls: Seq<RateLimiter>, now: u64) -> Seq<RateLimiter> {
    ls.map_values(|l: RateLimiter| taken(l, now))
}

proof fn lemma_max_wait_bounds(ls: Seq<RateLimiter>, now: u64)
    ensures
        max_wait(ls, now) <= u64::MAX,
        max_wait(ls, now) == 0 <==> all_ready(ls, now),
    decreases ls.len(),
{
    if ls.len() > 0 {
        lemma_max_wait_bounds(ls.drop_last(), now);
        if all_ready(ls, now) {
            assert(all_ready(ls.drop_last(), now)) by {
                assert forall|i: int| 0 <= i < ls.drop_last().len() implies is_ready(
                    #[trigger] ls.drop_last()[i],
                    now,
                ) by {
                    assert(ls.drop_last()[i] == ls[i]);
                }
            }
            assert(is_ready(ls[ls.len() - 1], now));
        }
        if all_ready(ls.drop_last(), now) && is_ready(ls.last(), now) {
            assert forall|i: int| 0 <= i < ls.len() implies is_ready(#[trigger] ls[i], now) by {
                if i < ls.len() - 1 {
                    assert(ls.drop_last()[i] == ls[i]);
                }
            }
        }
    }
}

/// Takes a token from every limiter when all of them have one at `now`
/// (returning zero); otherwise leaves them and returns the longest wait.
pub fn acquire_all(ls: &mut Vec<RateLimiter>, now: u64) -> (wait: u64)
    ensures
        wait as nat == max_wait(old(ls)@, now),
        wait == 0 <==> all_ready(old(ls)@, now),
        wait == 0 ==> final(ls)@ == take_all(old(ls)@, now),
        wait != 0 ==> final(ls)@ == old(ls)@,
{
    let mut longest: u64 = 0;
    let mut i: usize = 0;
    while i < ls.len()
        invariant
            i <= ls@.len(),
            longest as nat == max_wait(ls@.subrange(0, i as int), now),
        decreases ls@.len() - i,
    {
        let w = ls[i].wait_ms(now);
        proof {
            assert(ls@.subrange(0, i + 1).drop_last() =~= ls@.subrange(0, i as int));
        }
        if w > longest {
            longest = w;
        }
        i = i + 1;
    }
    proof {
        assert(ls@.subrange(0, ls@.len() as int) =~= ls@);
        lemma_max_wait_bounds(ls@, now);
    }
    if longest != 0 {
        return longest;
    }
    let ghost before = ls@;
    let mut j: usize = 0;
    while j < ls.len()
        invariant
            j <= ls@.len(),
            ls@.len() == before.len(),
            forall|k: int| 0 <= k < j ==> ls@[k] == taken(before[k], now),
            forall|k: int| j <= k < ls@.len() ==> ls@[k] == before[k],
        decreases ls@.len() - j,
    {
        let mut l = ls[j];
        l.take(now);
        ls.set(j, l);
        j = j + 1;
    }
    proof {
        assert(ls@ =~= take_all(before, now));
    }
    0
}

} // verus!
