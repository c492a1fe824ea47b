//! How often a secret may be tried wrongly.
use crate::sorted_map::SortedMap;
use vstd::prelude::*;

verus! {

broadcast use vstd::seq::group_seq_axioms;

/// Whether another try is let through, and how long to wait where it is not.
#[derive(Debug, Clone, Copy)]
pub struct RateLimitDecision {
    pub allowed: bool,
    pub retry_after_ms: u64,
}

/// Counts the failed tries of each key within a window of time.
pub struct AuthRateLimiter {
    max_attempts: u32,
    window_ms: u64,
    attempts: SortedMap<Vec<u64>>,
}

/// The earliest time that is still in the window at `now`.
pub open spec fn cutoff(now: u64, window_ms: u64) -> u64 {
    if now < window_ms {
        0
    } else {
        (now - window_ms) as u64
    }
}

/// The tries that are not older than `from`.
pub open spec fn recent(stamps: Seq<u64>, from: u64) -> Seq<u64>
    decreases stamps.len(),
{
    if stamps.len() == 0 {
        stamps
    } else if stamps.last() >= from {
        recent(stamps.drop_last(), from).push(stamps.last())
    } else {
        recent(stamps.drop_last(), from)
    }
}

/// The tries that count after one more failure at `now`.
pub open spec fn after_failure(stamps: Seq<u64>, now: u64, window_ms: u64) -> Seq<u64> {
    recent(stamps, cutoff(now, window_ms)).push(now)
}

/// The tries that count after failures at each of the times.
pub open spec fn after_failures(times: Seq<u64>, window_ms: u64) -> Seq<u64>
    decreases times.len(),
{
    if times.len() == 0 {
        times
    } else {
        after_failure(after_failures(times.drop_last(), window_ms), times.last(), window_ms)
    }
}

proof fn lemma_recent_bound(stamps: Seq<u64>, from: u64)
    ensures
        recent(stamps, from).len() <= stamps.len(),
        forall|i: int| 0 <= i < recent(stamps, from).len() ==> #[trigger] recent(stamps, from)[i]
            >= from,
    decreases stamps.len(),
{
    if stamps.len() > 0 {
        lemma_recent_bound(stamps.drop_last(), from);
    }
}

proof fn lemma_recent_all(stamps: Seq<u64>, from: u64)
    requires
        forall|i: int| 0 <= i < stamps.len() ==> #[trigger] stamps[i] >= from,
    ensures
        recent(stamps, from) == stamps,
    decreases stamps.len(),
{
    if stamps.len() > 0 {
        lemma_recent_all(stamps.drop_last(), from);
        assert(stamps.drop_last().push(stamps.last()) =~= stamps);
    }
}

proof fn lemma_recent_none(stamps: Seq<u64>, from: u64)
    requires
        forall|i: int| 0 <= i < stamps.len() ==> #[trigger] stamps[i] < from,
    ensures
        recent(stamps, from).len() == 0,
    decreases stamps.len(),
{
    if stamps.len() > 0 {
        lemma_recent_none(stamps.drop_last(), from);
    }
}

impl AuthRateLimiter {
    /// The tries that the key is remembered for.
    pub closed spec fn stamps(&self, key: Seq<char>) -> Seq<u64> {
        if self.attempts@.contains_key(key) {
            self.attempts@[key]@
        } else {
            Seq::empty()
        }
    }

    /// The number of failed tries that are let through.
    pub closed spec fn limit(&self) -> nat {
        self.max_attempts as nat
    }

    /// The window of time.
    pub closed spec fn window(&self) -> u64 {
        self.window_ms
    }

    /// A limiter that remembers no tries.
    pub fn new(max_attempts: u32, window_ms: u64) -> (r: Self)
        ensures
            r.limit() == max_attempts,
            r.window() == window_ms,
            forall|key: Seq<char>| #[trigger] r.stamps(key) == Seq::<u64>::empty(),
    {
        AuthRateLimiter { max_attempts, window_ms, attempts: SortedMap::new() }
    }

    /// The tries of a key that are still in the window.
    fn fresh(&self, key: &str, now: u64) -> (r: Vec<u64>)
        ensures
            r@ == recent(self.stamps(key@), cutoff(now, self.window())),
    {
        let from: u64 = now.saturating_sub(self.window_ms);
        let mut out: Vec<u64> = Vec::new();
        if let Some(old_stamps) = self.attempts.get(key) {
            let mut i: usize = 0;
            while i < old_stamps.len()
                invariant
                    i <= old_stamps@.len(),
                    out@ == recent(old_stamps@.take(i as int), from),
                decreases old_stamps@.len() - i,
            {
                let stamp: u64 = old_stamps[i];
                if stamp >= from {
                    out.push(stamp);
                }
                i = i + 1;
                assert(old_stamps@.take(i as int).drop_last() =~= old_stamps@.take(i - 1));
            }
            assert(old_stamps@.take(i as int) =~= old_stamps@);
        }
        out
    }

    /// Whether the key may try again at `now`. Tries that left the window are forgotten.
    pub fn check(&mut self, key: &str, now: u64) -> (r: RateLimitDecision)
        ensures
            final(self).limit() == old(self).limit(),
            final(self).window() == old(self).window(),
            final(self).stamps(key@) == recent(
                old(self).stamps(key@),
                cutoff(now, old(self).window()),
            ),
            forall|other: Seq<char>|
                other != key@ ==> #[trigger] final(self).stamps(other) == old(self).stamps(other),
            r.allowed == (final(self).stamps(key@).len() < old(self).limit()),
            r.retry_after_ms == 0,
    {
        let attempts = self.fresh(key, now);
        let from: u64 = now.saturating_sub(self.window_ms);
        let count: usize = attempts.len();
        let limit: usize = self.max_attempts as usize;
        let allowed = count < limit;
        let mut retry_after_ms: u64 = 0;
        if !allowed && count > 0 {
            retry_after_ms = from.saturating_sub(attempts[0]);
        }
        proof {
            lemma_recent_bound(self.stamps(key@), cutoff(now, self.window()));
        }
        self.attempts.insert(key.to_owned(), attempts);
        RateLimitDecision { allowed, retry_after_ms }
    }

    /// Remembers a failed try of the key at `now`, and tells whether the next is let through.
    pub fn record_failure(&mut self, key: &str, now: u64) -> (r: RateLimitDecision)
        ensures
            final(self).limit() == old(self).limit(),
            final(self).window() == old(self).window(),
            final(self).stamps(key@) == after_failure(
                old(self).stamps(key@),
                now,
                old(self).window(),
            ),
            forall|other: Seq<char>|
                other != key@ ==> #[trigger] final(self).stamps(other) == old(self).stamps(other),
            r.allowed == (final(self).stamps(key@).len() <= old(self).limit()),
            r.retry_after_ms == (if r.allowed {
                0
            } else {
                old(self).window()
            }),
    {
        let mut attempts = self.fresh(key, now);
        attempts.push(now);
        let allowed = attempts.len() <= self.max_attempts as usize;
        self.attempts.insert(key.to_owned(), attempts);
        let retry_after_ms: u64 = if allowed {
            0
        } else {
            self.window_ms
        };
        RateLimitDecision { allowed, retry_after_ms }
    }

    /// Forgets the tries of the key.
    pub fn reset(&mut self, key: &str)
        ensures
            final(self).limit() == old(self).limit(),
            final(self).window() == old(self).window(),
            final(self).stamps(key@) == Seq::<u64>::empty(),
            forall|other: Seq<char>|
                other != key@ ==> #[trigger] final(self).stamps(other) == old(self).stamps(other),
    {
        let _ = self.attempts.remove(key);
    }
}

/// While all failures lie within one window none of them is forgotten.
pub proof fn law_failures_in_one_window_count(times: Seq<u64>, window_ms: u64)
    requires
        forall|i: int, j: int|
            0 <= i < times.len() && 0 <= j < times.len() ==> #[trigger] times[j] - #[trigger] times[i]
                <= window_ms,
    ensures
        after_failures(times, window_ms) == times,
    decreases times.len(),
{
    if times.len() > 0 {
        let earlier = times.drop_last();
        assert forall|i: int, j: int|
            0 <= i < earlier.len() && 0 <= j < earlier.len() implies #[trigger] earlier[j]
            - #[trigger] earlier[i] <= window_ms by {
            assert(earlier[i] == times[i] && earlier[j] == times[j]);
        }
        law_failures_in_one_window_count(earlier, window_ms);
        assert forall|i: int| 0 <= i < earlier.len() implies #[trigger] earlier[i] >= cutoff(
            times.last(),
            window_ms,
        ) by {
            assert(earlier[i] == times[i]);
            assert(times.last() == times[times.len() - 1]);
            assert(times[times.len() - 1] - times[i] <= window_ms);
        }
        lemma_recent_all(earlier, cutoff(times.last(), window_ms));
        assert(earlier.push(times.last()) =~= times);
    }
}

/// After as many failures within a window as the limit allows, a key is locked for the rest of
/// that window.
pub proof fn law_locked_within_the_window(stamps: Seq<u64>, now: u64, window_ms: u64, limit: nat)
    requires
        stamps.len() >= limit,
        forall|i: int| 0 <= i < stamps.len() ==> now - #[trigger] stamps[i] <= window_ms,
    ensures
        !(recent(stamps, cutoff(now, window_ms)).len() < limit),
        !(after_failure(stamps, now, window_ms).len() <= limit),
{
    lemma_recent_all(stamps, cutoff(now, window_ms));
}

/// Once its failures left the window, a key may try again.
pub proof fn law_unlocked_after_the_window(stamps: Seq<u64>, now: u64, window_ms: u64, limit: nat)
    requires
        limit > 0,
        forall|i: int| 0 <= i < stamps.len() ==> now - #[trigger] stamps[i] > window_ms,
    ensures
        recent(stamps, cutoff(now, window_ms)).len() < limit,
{
    lemma_recent_none(stamps, cutoff(now, window_ms));
}

proof fn lemma_recent_count(stamps: Seq<u64>, from: u64, t: u64)
    ensures
        recent(stamps, from).to_multiset().count(t) == (if t >= from {
            stamps.to_multiset().count(t)
        } else {
            0
        }),
    decreases stamps.len(),
{
    broadcast use vstd::seq_lib::group_to_multiset_ensures;

    if stamps.len() > 0 {
        let earlier = stamps.drop_last();
        lemma_recent_count(earlier, from, t);
        assert(stamps =~= earlier.push(stamps.last()));
        assert(stamps.to_multiset() == earlier.to_multiset().insert(stamps.last()));
        if stamps.last() >= from {
            assert(recent(stamps, from).to_multiset() == recent(earlier, from).to_multiset().insert(
                stamps.last(),
            ));
        }
    } else {
        assert(stamps.to_multiset().count(t) == 0);
    }
}

/// A failure at a time counts at `now` exactly while no more than the window lies between: a check
/// forgets the others, and lets a key try again exactly while fewer than the limit are left.
pub proof fn law_failures_count_for_the_window(key: &str, now: u64, r: RateLimitDecision, t: u64)
    ensures
        forall|limiter: &mut AuthRateLimiter| #[trigger]
            call_ensures(AuthRateLimiter::check, (limiter, key, now), r) ==> {
                &&& final(limiter).stamps(key@).to_multiset().count(t) == (if now - t
                    <= limiter.window() {
                    limiter.stamps(key@).to_multiset().count(t)
                } else {
                    0
                })
                &&& r.allowed <==> final(limiter).stamps(key@).len() < limiter.limit()
            },
{
    assert forall|limiter: &mut AuthRateLimiter| #[trigger]
        call_ensures(AuthRateLimiter::check, (limiter, key, now), r) implies final(limiter).stamps(
        key@,
    ).to_multiset().count(t) == (if now - t <= limiter.window() {
        limiter.stamps(key@).to_multiset().count(t)
    } else {
        0
    }) by {
        lemma_recent_count(limiter.stamps(key@), cutoff(now, limiter.window()), t);
    }
}

/// A failure is remembered beside those that still count, and the next try is let through exactly
/// while no more than the limit are remembered.
pub proof fn law_failures_are_remembered(key: &str, now: u64, r: RateLimitDecision, t: u64)
    ensures
        forall|limiter: &mut AuthRateLimiter| #[trigger]
            call_ensures(AuthRateLimiter::record_failure, (limiter, key, now), r) ==> {
                &&& final(limiter).stamps(key@).to_multiset().count(t) == (if now - t
                    <= limiter.window() {
                    limiter.stamps(key@).to_multiset().count(t)
                } else {
                    0
                }) + (if t == now {
                    1int
                } else {
                    0
                })
                &&& r.allowed <==> final(limiter).stamps(key@).len() <= limiter.limit()
                &&& r.retry_after_ms == (if r.allowed {
                    0
                } else {
                    limiter.window()
                })
            },
{
    broadcast use vstd::seq_lib::group_to_multiset_ensures;

    assert forall|limiter: &mut AuthRateLimiter| #[trigger]
        call_ensures(AuthRateLimiter::record_failure, (limiter, key, now), r) implies final(limiter).stamps(key@).to_multiset().count(t) == (if now - t <= limiter.window() {
        limiter.stamps(key@).to_multiset().count(t)
    } else {
        0
    }) + (if t == now {
        1int
    } else {
        0
    }) by {
        let kept = recent(limiter.stamps(key@), cutoff(now, limiter.window()));
        lemma_recent_count(limiter.stamps(key@), cutoff(now, limiter.window()), t);
        assert(final(limiter).stamps(key@).to_multiset() == kept.to_multiset().insert(now));
    }
}

/// Who failed as often as the limit says, each time no longer ago than the window, is not let
/// through; who failed only longer ago is.
pub proof fn law_locked_out(times: Seq<u64>, key: &str, now: u64, r: RateLimitDecision)
    ensures
        forall|limiter: &mut AuthRateLimiter| #[trigger]
            call_ensures(AuthRateLimiter::check, (limiter, key, now), r) && limiter.stamps(key@)
                == after_failures(times, limiter.window()) ==> {
                &&& times.len() >= limiter.limit() && (forall|i: int|
                    0 <= i < times.len() ==> (#[trigger] times[i]) <= now && now - times[i]
                        <= limiter.window()) ==> !r.allowed
                &&& limiter.limit() > 0 && (forall|i: int|
                    0 <= i < times.len() ==> now - (#[trigger] times[i]) > limiter.window())
                    ==> r.allowed
            },
{
    assert forall|limiter: &mut AuthRateLimiter| #[trigger]
        call_ensures(AuthRateLimiter::check, (limiter, key, now), r) && limiter.stamps(key@)
            == after_failures(times, limiter.window()) implies {
        &&& times.len() >= limiter.limit() && (forall|i: int|
            0 <= i < times.len() ==> (#[trigger] times[i]) <= now && now - times[i]
                <= limiter.window()) ==> !r.allowed
        &&& limiter.limit() > 0 && (forall|i: int|
            0 <= i < times.len() ==> now - (#[trigger] times[i]) > limiter.window()) ==> r.allowed
    } by {
        let window = limiter.window();
        if forall|i: int|
            0 <= i < times.len() ==> (#[trigger] times[i]) <= now && now - times[i] <= window {
            law_failures_in_one_window_count(times, window);
            lemma_recent_all(times, cutoff(now, window));
        }
        if forall|i: int| 0 <= i < times.len() ==> now - (#[trigger] times[i]) > window {
            lemma_remembered_are_given(times, window);
            let stamps = after_failures(times, window);
            assert forall|i: int| 0 <= i < stamps.len() implies #[trigger] stamps[i] < cutoff(
                now,
                window,
            ) by {
                assert(times.contains(stamps[i]));
                let k = choose|k: int| 0 <= k < times.len() && times[k] == stamps[i];
                assert(now - times[k] > window);
            }
            lemma_recent_none(stamps, cutoff(now, window));
        }
    }
}

proof fn lemma_recent_are_given(stamps: Seq<u64>, from: u64)
    ensures
        forall|i: int| 0 <= i < recent(stamps, from).len() ==> stamps.contains(
            #[trigger] recent(stamps, from)[i],
        ),
    decreases stamps.len(),
{
    if stamps.len() > 0 {
        let d = stamps.drop_last();
        lemma_recent_are_given(d, from);
        assert forall|i: int| 0 <= i < recent(stamps, from).len() implies stamps.contains(
            #[trigger] recent(stamps, from)[i],
        ) by {
            if i < recent(d, from).len() {
                assert(d.contains(recent(d, from)[i]));
                let k = choose|k: int| 0 <= k < d.len() && d[k] == recent(d, from)[i];
                assert(stamps[k] == d[k]);
            } else {
                assert(stamps[stamps.len() - 1] == recent(stamps, from)[i]);
            }
        }
    }
}

proof fn lemma_remembered_are_given(times: Seq<u64>, window_ms: u64)
    ensures
        forall|i: int| 0 <= i < after_failures(times, window_ms).len() ==> times.contains(
            #[trigger] after_failures(times, window_ms)[i],
        ),
    decreases times.len(),
{
    if times.len() > 0 {
        let d = times.drop_last();
        lemma_remembered_are_given(d, window_ms);
        let earlier = after_failures(d, window_ms);
        let from = cutoff(times.last(), window_ms);
        lemma_recent_are_given(earlier, from);
        let all = after_failures(times, window_ms);
        assert forall|i: int| 0 <= i < all.len() implies times.contains(#[trigger] all[i]) by {
            if i < recent(earlier, from).len() {
                assert(earlier.contains(recent(earlier, from)[i]));
                let j = choose|j: int| 0 <= j < earlier.len() && earlier[j] == recent(earlier, from)[i];
                assert(d.contains(earlier[j]));
                let k = choose|k: int| 0 <= k < d.len() && d[k] == earlier[j];
                assert(times[k] == d[k]);
            } else {
                assert(times[times.len() - 1] == all[i]);
            }
        }
    }
}

/// A new limiter remembers nothing and has the bounds that it was given, and no try changes them or
/// what is remembered of others.
pub proof fn law_others_are_not_counted(
    key: &str,
    now: u64,
    other: Seq<char>,
    max_attempts: u32,
    window_ms: u64,
    new: AuthRateLimiter,
    r: RateLimitDecision,
)
    requires
        other != key@,
        call_ensures(AuthRateLimiter::new, (max_attempts, window_ms), new),
    ensures
        new.limit() == max_attempts && new.window() == window_ms && new.stamps(other).len() == 0,
        forall|limiter: &mut AuthRateLimiter| #[trigger]
            call_ensures(AuthRateLimiter::check, (limiter, key, now), r) ==> final(limiter).stamps(other)
                == limiter.stamps(other) && final(limiter).limit() == limiter.limit() && final(limiter).window() == limiter.window(),
        forall|limiter: &mut AuthRateLimiter| #[trigger]
            call_ensures(AuthRateLimiter::record_failure, (limiter, key, now), r) ==> final(limiter).stamps(other) == limiter.stamps(other) && final(limiter).limit() == limiter.limit()
                && final(limiter).window() == limiter.window(),
{
}

} // verus!
