//! Sliding-window rate accounting for one client identity.
//!
//! A window is the sequence of the times, in seconds, at which the client
//! was admitted. A request first purges the stamps that have left the
//! trailing window, then is admitted while fewer stamps than the limit
//! remain, and only an admitted request leaves a stamp.

use vstd::prelude::*;

verus! {

/// Length of the trailing window, in seconds.
pub const WINDOW_SECONDS: u64 = 60;

/// Whether a stamp `t` lies in the window that trails `now`.
pub open spec fn in_window(t: u64, now: u64) -> bool {
    t <= now && now - t < WINDOW_SECONDS
}

/// The stamps that are left after the purge at time `now`.
pub open spec fn recent(stamps: Seq<u64>, now: u64) -> Seq<u64> {
    stamps.filter(|t: u64| in_window(t, now))
}

/// Whether a request at time `now` is admitted.
pub open spec fn admits(stamps: Seq<u64>, now: u64, limit: u32) -> bool {
    recent(stamps, now).len() < limit
}

/// The window after a request at time `now`.
pub open spec fn record(stamps: Seq<u64>, now: u64, limit: u32) -> Seq<u64> {
    if admits(stamps, now, limit) {
        recent(stamps, now).push(now)
    } else {
        recent(stamps, now)
    }
}

/// The window of a client whose requests came at `times`, in that order,
/// starting from no history.
pub open spec fn replay(times: Seq<u64>, limit: u32) -> Seq<u64>
    decreases times.len(),
{
    if times.len() == 0 {
        Seq::empty()
    } else {
        record(replay(times.drop_last(), limit), times.last(), limit)
    }
}

/// Whether request `k` of `times` is admitted.
pub open spec fn admitted(times: Seq<u64>, limit: u32, k: int) -> bool {
    admits(replay(times.take(k), limit), times[k], limit)
}

/// Whether time never runs backwards in `times`.
pub open spec fn ascending(times: Seq<u64>) -> bool {
    forall|i: int, j: int| 0 <= i <= j < times.len() ==> times[i] <= times[j]
}

/// Purging after one more stamp: the stamp stays if it lies in the window.
pub proof fn lemma_recent_push(stamps: Seq<u64>, t: u64, now: u64)
    ensures
        recent(stamps.push(t), now) == if in_window(t, now) {
            recent(stamps, now).push(t)
        } else {
            recent(stamps, now)
        },
{
    reveal(Seq::filter);
    assert(stamps.push(t).drop_last() =~= stamps);
}

/// Every stamp that survives a purge lies in the window, and a purge never
/// adds a stamp.
pub proof fn lemma_recent_in_window(stamps: Seq<u64>, now: u64)
    ensures
        recent(stamps, now).len() <= stamps.len(),
        forall|i: int|
            0 <= i < recent(stamps, now).len() ==> in_window(
                #[trigger] recent(stamps, now)[i],
                now,
            ),
    decreases stamps.len(),
{
    reveal(Seq::filter);
    if stamps.len() > 0 {
        lemma_recent_in_window(stamps.drop_last(), now);
    }
}

/// A purge keeps a window whose stamps all lie in the trailing window.
pub proof fn lemma_recent_keeps(stamps: Seq<u64>, now: u64)
    requires
        forall|i: int| 0 <= i < stamps.len() ==> in_window(#[trigger] stamps[i], now),
    ensures
        recent(stamps, now) == stamps,
    decreases stamps.len(),
{
    reveal(Seq::filter);
    if stamps.len() > 0 {
        lemma_recent_keeps(stamps.drop_last(), now);
        assert(stamps.drop_last().push(stamps.last()) =~= stamps);
    }
}

/// A purge drops a window whose stamps have all left the trailing window.
pub proof fn lemma_recent_drops(stamps: Seq<u64>, now: u64)
    requires
        forall|i: int| 0 <= i < stamps.len() ==> !in_window(#[trigger] stamps[i], now),
    ensures
        recent(stamps, now) == Seq::<u64>::empty(),
    decreases stamps.len(),
{
    reveal(Seq::filter);
    if stamps.len() > 0 {
        lemma_recent_drops(stamps.drop_last(), now);
    }
}

/// Purging at an earlier time first changes nothing for a later purge, when
/// no stamp is later than the earlier time.
pub proof fn lemma_recent_twice(stamps: Seq<u64>, earlier: u64, later: u64)
    requires
        earlier <= later,
        forall|i: int| 0 <= i < stamps.len() ==> #[trigger] stamps[i] <= earlier,
    ensures
        recent(recent(stamps, earlier), later) == recent(stamps, later),
    decreases stamps.len(),
{
    reveal(Seq::filter);
    if stamps.len() > 0 {
        let front = stamps.drop_last();
        let t = stamps.last();
        lemma_recent_twice(front, earlier, later);
        assert(front.push(t) =~= stamps);
        lemma_recent_push(front, t, earlier);
        lemma_recent_push(front, t, later);
        if in_window(t, earlier) {
            lemma_recent_push(recent(front, earlier), t, later);
        }
    }
}

/// The requests before request `k` that lie in the window trailing it.
pub open spec fn earlier_in_window(times: Seq<u64>, k: int) -> Seq<u64> {
    recent(times.take(k), times[k])
}

/// Whether no request of `times` finds `limit` or more earlier requests in
/// its trailing window: no window holds more than `limit` requests.
pub open spec fn within_quota(times: Seq<u64>, limit: u32) -> bool {
    forall|k: int| 0 <= k < times.len() ==> (#[trigger] earlier_in_window(times, k)).len() < limit
}

/// Whether each request comes a full window or more after the one before.
pub open spec fn spaced(times: Seq<u64>) -> bool {
    forall|k: int| 0 < k < times.len() ==> #[trigger] times[k] - times[k - 1] >= WINDOW_SECONDS
}

/// After any request every stamp lies in the window trailing it, and the
/// window holds no more stamps than before, or than the limit.
pub proof fn lemma_record_bounded(stamps: Seq<u64>, now: u64, limit: u32)
    ensures
        record(stamps, now, limit).len() <= stamps.len() || record(stamps, now, limit).len()
            <= limit,
        forall|i: int|
            0 <= i < record(stamps, now, limit).len() ==> in_window(
                #[trigger] record(stamps, now, limit)[i],
                now,
            ),
{
    lemma_recent_in_window(stamps, now);
}

/// While a client stays within its quota, its window is the requests so far
/// that lie in the window trailing the latest of them.
proof fn lemma_replay_within_quota(times: Seq<u64>, limit: u32, k: int)
    requires
        ascending(times),
        within_quota(times, limit),
        0 <= k <= times.len(),
    ensures
        replay(times.take(k), limit) == if k == 0 {
            Seq::<u64>::empty()
        } else {
            recent(times.take(k), times[k - 1])
        },
    decreases k,
{
    if k > 0 {
        lemma_replay_within_quota(times, limit, k - 1);
        let before = times.take(k - 1);
        let upto = times.take(k);
        let now = times[k - 1];
        assert(upto.drop_last() =~= before);
        assert(upto.last() == now);
        if k == 1 {
            assert(before =~= Seq::<u64>::empty());
        } else {
            lemma_recent_twice(before, times[k - 2], now);
        }
        assert(recent(replay(before, limit), now) == recent(before, now));
        assert(earlier_in_window(times, k - 1).len() < limit);
        lemma_recent_push(before, now, now);
        assert(before.push(now) =~= upto);
    }
}

/// Rate law, first half: a client that never makes more than `limit`
/// requests within one trailing window has every request admitted.
pub proof fn lemma_within_quota_all_admitted(times: Seq<u64>, limit: u32)
    requires
        ascending(times),
        within_quota(times, limit),
    ensures
        forall|k: int| 0 <= k < times.len() ==> admitted(times, limit, k),
{
    assert forall|k: int| 0 <= k < times.len() implies admitted(times, limit, k) by {
        lemma_replay_within_quota(times, limit, k);
        assert(earlier_in_window(times, k).len() < limit);
        if k == 0 {
            assert(times.take(0) =~= Seq::<u64>::empty());
        } else {
            lemma_recent_twice(times.take(k), times[k - 1], times[k]);
        }
    }
}

/// Rate law, second half: of `limit + 1` requests within one window, the
/// first `limit` are admitted and the last is rejected.
pub proof fn lemma_burst_hits_limit(times: Seq<u64>, limit: u32)
    requires
        ascending(times),
        times.len() == limit + 1,
        times.last() - times[0] < WINDOW_SECONDS,
    ensures
        forall|k: int| 0 <= k < limit ==> admitted(times, limit, k),
        !admitted(times, limit, limit as int),
{
    let first = times.take(limit as int);
    assert forall|k: int| 0 <= k <= limit implies #[trigger] recent(times.take(k), times[k])
        == times.take(k) by {
        lemma_recent_keeps(times.take(k), times[k]);
    }
    assert forall|k: int| 0 <= k < first.len() implies (#[trigger] earlier_in_window(
        first,
        k,
    )).len() < limit by {
        assert(first.take(k) =~= times.take(k));
    }
    lemma_within_quota_all_admitted(first, limit);
    assert forall|k: int| 0 <= k < limit implies admitted(times, limit, k) by {
        assert(first.take(k) =~= times.take(k));
        assert(admitted(first, limit, k));
    }
    lemma_replay_within_quota(first, limit, limit as int);
    assert(first.take(limit as int) =~= first);
    if limit > 0 {
        lemma_recent_keeps(first, first[limit - 1]);
    }
    assert(replay(first, limit) == first);
}

/// Purge law: when each request comes a full window or more after the one
/// before, every request is admitted and the window never holds more than
/// the stamp of the latest one.
pub proof fn lemma_spaced_requests_keep_one_stamp(times: Seq<u64>, limit: u32)
    requires
        limit > 0,
        spaced(times),
    ensures
        times.len() > 0 ==> replay(times, limit) == seq![times.last()],
        forall|k: int| 0 <= k < times.len() ==> admitted(times, limit, k),
    decreases times.len(),
{
    if times.len() > 0 {
        let front = times.drop_last();
        let now = times.last();
        assert forall|k: int| 0 < k < front.len() implies #[trigger] front[k] - front[k - 1]
            >= WINDOW_SECONDS by {
            assert(times[k] - times[k - 1] >= WINDOW_SECONDS);
        }
        lemma_spaced_requests_keep_one_stamp(front, limit);
        if front.len() > 0 {
            assert(times[times.len() - 1] - times[times.len() - 2] >= WINDOW_SECONDS);
        }
        lemma_recent_drops(replay(front, limit), now);
        assert(replay(times, limit) =~= seq![now]);
        assert forall|k: int| 0 <= k < times.len() implies admitted(times, limit, k) by {
            if k < front.len() {
                assert(front.take(k) =~= times.take(k));
                assert(admitted(front, limit, k));
            } else {
                assert(times.take(k) =~= front);
            }
        }
    }
}

/// Purge law, for any history: the window never holds more stamps than the
/// limit, and none that has left the window trailing the latest request.
pub proof fn lemma_replay_bounded(times: Seq<u64>, limit: u32)
    ensures
        replay(times, limit).len() <= limit,
        forall|i: int|
            0 <= i < replay(times, limit).len() ==> in_window(
                #[trigger] replay(times, limit)[i],
                times.last(),
            ),
    decreases times.len(),
{
    if times.len() > 0 {
        lemma_replay_bounded(times.drop_last(), limit);
        lemma_record_bounded(replay(times.drop_last(), limit), times.last(), limit);
    }
}

/// Removes the stamps that have left the window trailing `now`.
pub fn purge(stamps: &Vec<u64>, now: u64) -> (fresh: Vec<u64>)
    ensures
        fresh@ == recent(stamps@, now),
{
    let mut fresh: Vec<u64> = Vec::new();
    let mut i: usize = 0;
    proof {
        lemma_recent_drops(stamps@.take(0), now);
    }
    while i < stamps.len()
        invariant
            i <= stamps.len(),
            fresh@ == recent(stamps@.take(i as int), now),
        decreases stamps.len() - i,
    {
        let t: u64 = stamps[i];
        proof {
            lemma_recent_push(stamps@.take(i as int), t, now);
            assert(stamps@.take(i as int).push(t) =~= stamps@.take(i + 1));
        }
        if t <= now && now - t < WINDOW_SECONDS {
            fresh.push(t);
        }
        i += 1;
    }
    assert(stamps@.take(stamps.len() as int) =~= stamps@);
    fresh
}

/// Accounts for a request at time `now`: purges the window, and stamps it
/// if the request is admitted. Returns whether it is, and the new window.
pub fn account(stamps: &Vec<u64>, now: u64, limit: u32) -> (r: (bool, Vec<u64>))
    ensures
        r.0 == admits(stamps@, now, limit),
        r.1@ == record(stamps@, now, limit),
{
    let mut fresh = purge(stamps, now);
    if fresh.len() >= limit as usize {
        (false, fresh)
    } else {
        fresh.push(now);
        (true, fresh)
    }
}

} // verus!
