use vstd::prelude::*;

verus! {

/// The most pulls one identity may have recorded within one window.
pub const RATE_LIMIT: u64 = 10;

/// How long an identity's record lives after its last accepted pull, in seconds.
pub const EXPIRY_SECS: u64 = 10;

/// Whether timestamp `e` lies in the window `[now - 1, now]`.
pub open spec fn in_window(e: u64, now: u64) -> bool {
    now - 1 <= e && e <= now
}

/// How many entries of a log lie in the window that ends at `now`.
pub open spec fn recent_count(log: Seq<u64>, now: u64) -> nat
    decreases log.len(),
{
    if log.len() == 0 {
        0
    } else {
        recent_count(log.drop_last(), now) + if in_window(log.last(), now) {
            1nat
        } else {
            0nat
        }
    }
}

/// The entries of a log that are not stale at `now`: those not older than
/// `now - 2`, in their order.
pub open spec fn pruned(log: Seq<u64>, now: u64) -> Seq<u64>
    decreases log.len(),
{
    if log.len() == 0 {
        Seq::empty()
    } else if log.last() >= now - 2 {
        pruned(log.drop_last(), now).push(log.last())
    } else {
        pruned(log.drop_last(), now)
    }
}

/// `a + b`, or `u64::MAX` where the sum does not fit.
pub open spec fn add_capped(a: u64, b: u64) -> u64 {
    if a + b > u64::MAX {
        u64::MAX
    } else {
        (a + b) as u64
    }
}

/// Whether a pull is admitted when `count` pulls are already recorded in its
/// window.
pub open spec fn admitted(count: int) -> bool {
    count < RATE_LIMIT
}

/// The first second of the window that ends at `now`, as a store query takes it.
pub fn window_start(now: u64) -> (r: u64)
    ensures
        r == if now == 0 { 0 } else { now - 1 },
        forall|e: u64| in_window(e, now) <==> (r <= e && e <= now),
{
    now.saturating_sub(1)
}

/// The first second that is not stale at `now`: entries below it are removed.
pub fn stale_before(now: u64) -> (r: u64)
    ensures
        r == if now >= 2 { now - 2 } else { 0 },
{
    now.saturating_sub(2)
}

/// Whether a pull is admitted when the store reports `count` recorded pulls in
/// its window.
pub fn admits(count: i64) -> (r: bool)
    ensures
        r == admitted(count as int),
{
    count < RATE_LIMIT as i64
}

/// The log after one call of the limiter at `now`: the call is recorded, and
/// stale entries removed, only where it is admitted.
pub open spec fn after_call(log: Seq<u64>, now: u64) -> Seq<u64> {
    if admitted(recent_count(log, now) as int) {
        pruned(log.push(now), now)
    } else {
        log
    }
}

/// The log after `n` calls at the same second `now`.
pub open spec fn after_burst(log: Seq<u64>, now: u64, n: nat) -> Seq<u64>
    decreases n,
{
    if n == 0 {
        log
    } else {
        after_call(after_burst(log, now, (n - 1) as nat), now)
    }
}

/// How many of `n` calls at the same second `now` are admitted.
pub open spec fn accepted_in_burst(log: Seq<u64>, now: u64, n: nat) -> nat
    decreases n,
{
    if n == 0 {
        0
    } else {
        accepted_in_burst(log, now, (n - 1) as nat) + if admitted(
            recent_count(after_burst(log, now, (n - 1) as nat), now) as int,
        ) {
            1nat
        } else {
            0nat
        }
    }
}

proof fn lemma_pruned_keeps_window(log: Seq<u64>, now: u64)
    ensures
        recent_count(pruned(log, now), now) == recent_count(log, now),
    decreases log.len(),
{
    if log.len() > 0 {
        lemma_pruned_keeps_window(log.drop_last(), now);
        if log.last() >= now - 2 {
            assert(pruned(log.drop_last(), now).push(log.last()).drop_last() =~= pruned(
                log.drop_last(),
                now,
            ));
        }
    }
}

/// Recording an admitted call at `now` adds exactly one entry to the window
/// that ends at `now`.
pub proof fn lemma_record_counts_once(log: Seq<u64>, now: u64)
    ensures
        recent_count(pruned(log.push(now), now), now) == recent_count(log, now) + 1,
{
    lemma_pruned_keeps_window(log.push(now), now);
    assert(log.push(now).drop_last() =~= log);
}

/// Of `n` calls made within one second by an identity that already has `k`
/// entries in that second's window, exactly `min(n, RATE_LIMIT - k)` are
/// admitted, and every later one is refused.
pub proof fn lemma_burst_limit(log: Seq<u64>, now: u64, n: nat)
    ensures
        recent_count(log, now) <= RATE_LIMIT ==> accepted_in_burst(log, now, n) == if n
            <= RATE_LIMIT - recent_count(log, now) {
            n as int
        } else {
            RATE_LIMIT - recent_count(log, now)
        },
        recent_count(log, now) <= RATE_LIMIT ==> recent_count(after_burst(log, now, n), now)
            == recent_count(log, now) + accepted_in_burst(log, now, n),
        recent_count(log, now) >= RATE_LIMIT ==> accepted_in_burst(log, now, n) == 0,
        recent_count(log, now) >= RATE_LIMIT ==> after_burst(log, now, n) == log,
    decreases n,
{
    if n > 0 {
        lemma_burst_limit(log, now, (n - 1) as nat);
        let prev = after_burst(log, now, (n - 1) as nat);
        if admitted(recent_count(prev, now) as int) {
            lemma_record_counts_once(prev, now);
        }
    }
}

/// One identity's sliding-window record: the seconds at which its pulls were
/// accepted, and the second from which the whole record is forgotten.
pub struct RateWindow {
    entries: Vec<u64>,
    expires_at: u64,
}

impl View for RateWindow {
    type V = Seq<u64>;

    closed spec fn view(&self) -> Seq<u64> {
        self.entries@
    }
}

impl RateWindow {
    pub closed spec fn expiry(&self) -> u64 {
        self.expires_at
    }

    /// The entries that still count at `now`: none once the record has expired.
    pub open spec fn live(&self, now: u64) -> Seq<u64> {
        if now >= self.expiry() {
            Seq::empty()
        } else {
            self@
        }
    }

    /// A record with no entries.
    pub fn new() -> (r: RateWindow)
        ensures
            r@ == Seq::<u64>::empty(),
            r.expiry() == 0,
    {
        RateWindow { entries: Vec::new(), expires_at: 0 }
    }

    /// How many live entries lie in the window that ends at `now`.
    pub fn count_recent(&self, now: u64) -> (r: u64)
        ensures
            r == recent_count(self.live(now), now),
    {
        if now >= self.expires_at {
            return 0;
        }
        let mut count: u64 = 0;
        let mut i: usize = 0;
        while i < self.entries.len()
            invariant
                i <= self.entries@.len(),
                count == recent_count(self.entries@.subrange(0, i as int), now),
                count <= i,
            decreases self.entries@.len() - i,
        {
            let e = self.entries[i];
            assert(self.entries@.subrange(0, i as int + 1).drop_last() =~= self.entries@.subrange(
                0,
                i as int,
            ));
            if now.saturating_sub(1) <= e && e <= now {
                count = count + 1;
            }
            i = i + 1;
        }
        assert(self.entries@.subrange(0, self.entries@.len() as int) =~= self.entries@);
        count
    }

    /// Decides whether a pull at `now` is allowed, and records it if so.
    ///
    /// The pull is allowed when fewer than `RATE_LIMIT` live entries lie in
    /// `[now - 1, now]`. When it is, `now` is appended, stale entries are
    /// removed and the record's expiry is pushed to `EXPIRY_SECS` after `now`.
    /// When it is not, nothing changes.
    pub fn check_and_record(&mut self, now: u64) -> (allowed: bool)
        ensures
            allowed == admitted(recent_count(old(self).live(now), now) as int),
            allowed ==> final(self)@ == pruned(old(self).live(now).push(now), now)
                && final(self).expiry() == add_capped(now, EXPIRY_SECS),
            !allowed ==> final(self)@ == old(self)@ && final(self).expiry() == old(self).expiry(),
    {
        let count = self.count_recent(now);
        if count >= RATE_LIMIT {
            return false;
        }
        let ghost live = self.live(now);
        let mut kept: Vec<u64> = Vec::new();
        if now < self.expires_at {
            let cutoff = stale_before(now);
            let mut i: usize = 0;
            while i < self.entries.len()
                invariant
                    i <= self.entries@.len(),
                    live == self.entries@,
                    cutoff == if now >= 2 { now - 2 } else { 0 },
                    kept@ == pruned(self.entries@.subrange(0, i as int), now),
                decreases self.entries@.len() - i,
            {
                let e = self.entries[i];
                assert(self.entries@.subrange(0, i as int + 1).drop_last()
                    =~= self.entries@.subrange(0, i as int));
                assert(self.entries@.subrange(0, i as int + 1).last() == e);
                if e >= cutoff {
                    kept.push(e);
                }
                i = i + 1;
            }
            assert(self.entries@.subrange(0, self.entries@.len() as int) =~= self.entries@);
        }
        assert(kept@ == pruned(live, now));
        assert(live.push(now).drop_last() =~= live);
        assert(pruned(live.push(now), now) == pruned(live, now).push(now));
        kept.push(now);
        self.entries = kept;
        self.expires_at = now.saturating_add(EXPIRY_SECS);
        true
    }
}

} // verus!
