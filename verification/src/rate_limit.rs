//! Limits on how often a user may act.

use crate::clock::{seconds_between, whole_seconds, Stopwatch};
use vstd::hash_map::StringHashMap;
use vstd::prelude::*;
use vstd::string::*;

verus! {

/// The length of the window that actions are counted in, in seconds.
pub const WINDOW_SECS: u64 = 60;

/// The moments that are still in the window.
pub open spec fn recent(stamps: Seq<u64>, now: u64) -> Seq<u64>
    decreases stamps.len(),
{
    if stamps.len() == 0 {
        Seq::empty()
    } else {
        let rest = recent(stamps.drop_last(), now);
        if seconds_between(stamps.last(), now) < WINDOW_SECS {
            rest.push(stamps.last())
        } else {
            rest
        }
    }
}

/// Whether one more action is allowed.
pub open spec fn allowed(stamps: Seq<u64>, max_per_minute: u32, now: u64) -> bool {
    recent(stamps, now).len() < max_per_minute
}

/// The moments that are kept after an action was asked for.
pub open spec fn recorded(stamps: Seq<u64>, max_per_minute: u32, now: u64) -> Seq<u64> {
    if allowed(stamps, max_per_minute, now) {
        recent(stamps, now).push(now)
    } else {
        recent(stamps, now)
    }
}

/// What is kept for a user; nothing for one who is not known.
pub open spec fn stamps_of(windows: Map<Seq<char>, Seq<u64>>, username: Seq<char>) -> Seq<u64> {
    if windows.contains_key(username) {
        windows[username]
    } else {
        Seq::empty()
    }
}

/// A limiter with a sliding window for each user: it keeps the moments of
/// recent actions, in nanoseconds, and refuses those that would exceed
/// `max_per_minute` within a window of 60 seconds.
pub struct RateLimiter {
    clock: Stopwatch,
    windows: StringHashMap<Vec<u64>>,
    max_per_minute: u32,
}

impl View for RateLimiter {
    type V = Map<Seq<char>, Seq<u64>>;

    closed spec fn view(&self) -> Map<Seq<char>, Seq<u64>> {
        self.windows@.map_values(|v: Vec<u64>| v@)
    }
}

impl RateLimiter {
    /// How many actions are allowed in a window.
    pub closed spec fn max(&self) -> u32 {
        self.max_per_minute
    }

    /// A limiter that has seen nothing.
    pub fn new(max_per_minute: u32) -> (res: RateLimiter)
        ensures
            res@ == Map::<Seq<char>, Seq<u64>>::empty(),
            res.max() == max_per_minute,
    {
        let res = RateLimiter { clock: Stopwatch::start(), windows: StringHashMap::new(), max_per_minute };
        assert(res@ =~= Map::<Seq<char>, Seq<u64>>::empty());
        res
    }

    /// Whether an action at a given moment is allowed; if it is, it is recorded.
    pub fn check_and_record_at(&mut self, username: &str, now: u64) -> (res: bool)
        ensures
            final(self).max() == old(self).max(),
            res == allowed(stamps_of(old(self)@, username@), old(self).max(), now),
            final(self)@ == old(self)@.insert(
                username@,
                recorded(stamps_of(old(self)@, username@), old(self).max(), now),
            ),
    {
        let mut kept: Vec<u64> = Vec::new();
        let ghost stamps = stamps_of(self@, username@);
        if let Some(found) = self.windows.get(username) {
            let mut i: usize = 0;
            assert(found@ == stamps);
            while i < found.len()
                invariant
                    i <= found@.len(),
                    kept@ == recent(found@.take(i as int), now),
                decreases found@.len() - i,
            {
                let t: u64 = found[i];
                proof {
                    assert(found@.take(i + 1).drop_last() =~= found@.take(i as int));
                }
                if whole_seconds(t, now) < WINDOW_SECS {
                    kept.push(t);
                }
                i += 1;
            }
            assert(found@.take(found@.len() as int) =~= found@);
        }
        assert(kept@ == recent(stamps, now));
        let ok = kept.len() < self.max_per_minute as usize;
        if ok {
            kept.push(now);
        }
        let ghost before = self.windows@;
        self.windows.insert(username.to_owned(), kept);
        proof {
            assert(self@ =~= before.map_values(|v: Vec<u64>| v@).insert(username@, kept@));
        }
        ok
    }

    /// Whether an action is allowed now; if it is, it is recorded.
    pub fn check_and_record(&mut self, username: &str) -> (res: bool)
        ensures
            final(self).max() == old(self).max(),
            exists|now: u64|
                res == #[trigger] allowed(stamps_of(old(self)@, username@), old(self).max(), now)
                    && final(self)@ == old(self)@.insert(
                    username@,
                    recorded(stamps_of(old(self)@, username@), old(self).max(), now),
                ),
    {
        let now: u64 = self.clock.read();
        self.check_and_record_at(username, now)
    }
}

/// What is kept of a user who asks at some moments, one after the other.
pub open spec fn kept_after(times: Seq<u64>, max_per_minute: u32) -> Seq<u64>
    decreases times.len(),
{
    if times.len() == 0 {
        Seq::empty()
    } else {
        recorded(kept_after(times.drop_last(), max_per_minute), max_per_minute, times.last())
    }
}

/// The moments at which such a user was allowed to act.
pub open spec fn allowed_of(times: Seq<u64>, max_per_minute: u32) -> Seq<u64>
    decreases times.len(),
{
    if times.len() == 0 {
        Seq::empty()
    } else {
        let before = allowed_of(times.drop_last(), max_per_minute);
        if allowed(kept_after(times.drop_last(), max_per_minute), max_per_minute, times.last()) {
            before.push(times.last())
        } else {
            before
        }
    }
}

/// The clock does not go back.
pub open spec fn in_order(times: Seq<u64>) -> bool {
    forall|i: int, j: int| 0 <= i <= j < times.len() ==> times[i] <= times[j]
}

proof fn recent_is_a_suffix(stamps: Seq<u64>, now: u64) -> (k: int)
    requires
        in_order(stamps),
        stamps.len() > 0 ==> stamps.last() <= now,
    ensures
        0 <= k <= stamps.len(),
        recent(stamps, now) == stamps.skip(k),
        forall|i: int| 0 <= i < k ==> seconds_between(#[trigger] stamps[i], now) >= WINDOW_SECS,
    decreases stamps.len(),
{
    if stamps.len() == 0 {
        assert(recent(stamps, now) =~= stamps.skip(0));
        0
    } else {
        let rest = stamps.drop_last();
        assert(stamps.last() == stamps[stamps.len() - 1]);
        if rest.len() > 0 {
            assert(rest.last() == stamps[stamps.len() - 2]);
        }
        let k = recent_is_a_suffix(rest, now);
        if seconds_between(stamps.last(), now) < WINDOW_SECS {
            assert(stamps.skip(k) =~= rest.skip(k).push(stamps.last()));
            assert forall|i: int| 0 <= i < k implies seconds_between(#[trigger] stamps[i], now)
                >= WINDOW_SECS by {
                assert(rest[i] == stamps[i]);
            }
            k
        } else {
            assert forall|i: int| 0 <= i < stamps.len() implies seconds_between(#[trigger] stamps[i], now)
                >= WINDOW_SECS by {
                assert(stamps[i] <= stamps[stamps.len() - 1]);
            }
            old_is_not_recent(stamps, now);
            assert(stamps.skip(stamps.len() as int) =~= Seq::<u64>::empty());
            stamps.len() as int
        }
    }
}

proof fn old_is_not_recent(stamps: Seq<u64>, now: u64)
    requires
        forall|i: int| 0 <= i < stamps.len() ==> seconds_between(#[trigger] stamps[i], now) >= WINDOW_SECS,
    ensures
        recent(stamps, now) == Seq::<u64>::empty(),
    decreases stamps.len(),
{
    if stamps.len() > 0 {
        let rest = stamps.drop_last();
        assert forall|i: int| 0 <= i < rest.len() implies seconds_between(#[trigger] rest[i], now)
            >= WINDOW_SECS by {
            assert(rest[i] == stamps[i]);
        }
        old_is_not_recent(rest, now);
        assert(stamps.last() == stamps[stamps.len() - 1]);
    }
}

proof fn kept_is_what_was_allowed_lately(times: Seq<u64>, max_per_minute: u32) -> (k: int)
    requires
        in_order(times),
    ensures
        in_order(allowed_of(times, max_per_minute)),
        allowed_of(times, max_per_minute).len() > 0 ==> times.len() > 0 && allowed_of(
            times,
            max_per_minute,
        ).last() <= times.last(),
        0 <= k <= allowed_of(times, max_per_minute).len(),
        kept_after(times, max_per_minute) == allowed_of(times, max_per_minute).skip(k),
        forall|i: int| 0 <= i < k ==> seconds_between(
            #[trigger] allowed_of(times, max_per_minute)[i],
            times.last(),
        ) >= WINDOW_SECS,
        forall|i: int, j: int|
            0 <= i && i + max_per_minute <= j < allowed_of(times, max_per_minute).len()
                ==> seconds_between(
                #[trigger] allowed_of(times, max_per_minute)[i],
                #[trigger] allowed_of(times, max_per_minute)[j],
            ) >= WINDOW_SECS,
    decreases times.len(),
{
    if times.len() == 0 {
        assert(allowed_of(times, max_per_minute).skip(0) =~= kept_after(times, max_per_minute));
        0
    } else {
        let m = max_per_minute;
        let earlier = times.drop_last();
        let now = times.last();
        assert(now == times[times.len() - 1]);
        if earlier.len() > 0 {
            assert(earlier.last() == times[times.len() - 2]);
        }
        let k = kept_is_what_was_allowed_lately(earlier, m);
        let before = allowed_of(earlier, m);
        let kept = kept_after(earlier, m);
        let after = allowed_of(times, m);
        assert forall|i: int, j: int| 0 <= i <= j < kept.len() implies kept[i] <= kept[j] by {
            assert(kept[i] == before[k + i] && kept[j] == before[k + j]);
        }
        if kept.len() > 0 {
            assert(kept.last() == before[before.len() - 1]);
        }
        let d = recent_is_a_suffix(kept, now);
        let r = recent(kept, now);
        assert(r =~= before.skip(k + d));
        assert forall|i: int| 0 <= i < k + d implies seconds_between(#[trigger] before[i], now)
            >= WINDOW_SECS by {
            if i < k {
                assert(seconds_between(before[i], earlier.last()) >= WINDOW_SECS);
            } else {
                assert(before[i] == kept[i - k]);
            }
        }
        if allowed(kept, m, now) {
            assert(after == before.push(now));
            assert(after.skip(k + d) =~= r.push(now));
            assert forall|i: int| 0 <= i < k + d implies seconds_between(#[trigger] after[i], now)
                >= WINDOW_SECS by {
                assert(after[i] == before[i]);
            }
            assert forall|i: int, j: int| 0 <= i && i + m <= j < after.len() implies seconds_between(
                #[trigger] after[i],
                #[trigger] after[j],
            ) >= WINDOW_SECS by {
                if j < before.len() {
                    assert(before[i] == after[i] && before[j] == after[j]);
                } else {
                    assert(i < k + d);
                    assert(before[i] == after[i]);
                }
            }
            assert forall|i: int, j: int| 0 <= i <= j < after.len() implies after[i] <= after[j] by {
                if j == before.len() && i < before.len() {
                    assert(before[i] <= before[before.len() - 1]);
                    assert(before.last() == before[before.len() - 1]);
                }
            }
        } else {
            assert(after == before);
        }
        k + d
    }
}

/// Of more than `max_per_minute` allowed actions in a row, the last comes at
/// least 60 seconds after the first: no window of 60 seconds holds more than
/// `max_per_minute` of them.
pub proof fn no_window_holds_too_many(times: Seq<u64>, max_per_minute: u32, i: int, j: int)
    requires
        in_order(times),
        0 <= i,
        i + max_per_minute <= j < allowed_of(times, max_per_minute).len(),
    ensures
        allowed_of(times, max_per_minute)[j] - allowed_of(times, max_per_minute)[i] >= 60
            * 1_000_000_000,
{
    kept_is_what_was_allowed_lately(times, max_per_minute);
    assert(seconds_between(
        allowed_of(times, max_per_minute)[i],
        allowed_of(times, max_per_minute)[j],
    ) >= WINDOW_SECS);
}

/// A user who has acted less often than `max_per_minute` in the last 60 seconds
/// is allowed to act.
pub proof fn the_patient_are_allowed(times: Seq<u64>, max_per_minute: u32, now: u64)
    requires
        in_order(times.push(now)),
        forall|i: int|
            0 <= i <= allowed_of(times, max_per_minute).len() - max_per_minute ==> now
                - #[trigger] allowed_of(times, max_per_minute)[i] >= 60 * 1_000_000_000,
        max_per_minute > 0,
    ensures
        allowed(kept_after(times, max_per_minute), max_per_minute, now),
{
    let m = max_per_minute;
    assert(in_order(times)) by {
        assert forall|i: int, j: int| 0 <= i <= j < times.len() implies times[i] <= times[j] by {
            assert(times.push(now)[i] <= times.push(now)[j]);
        }
    }
    let k = kept_is_what_was_allowed_lately(times, m);
    let acted = allowed_of(times, m);
    let kept = kept_after(times, m);
    assert forall|i: int, j: int| 0 <= i <= j < kept.len() implies kept[i] <= kept[j] by {
        assert(kept[i] == acted[k + i] && kept[j] == acted[k + j]);
    }
    if kept.len() > 0 {
        assert(kept.last() == acted[acted.len() - 1]);
        assert(times.push(now)[times.len() - 1] <= times.push(now)[times.len() as int]);
    }
    let d = recent_is_a_suffix(kept, now);
    if kept.len() - d >= m {
        let i = acted.len() - m;
        assert(now - acted[i] >= 60 * 1_000_000_000);
        let x = i - k;
        assert(d <= x < kept.len());
        assert(kept[x] == acted[i]);
        assert(recent(kept, now)[0] == kept[d]);
        assert(kept[d] <= kept[x]);
        all_recent_are(kept, now, 0);
    }
}

proof fn all_recent_are(stamps: Seq<u64>, now: u64, i: int)
    requires
        0 <= i < recent(stamps, now).len(),
    ensures
        seconds_between(recent(stamps, now)[i], now) < WINDOW_SECS,
    decreases stamps.len(),
{
    if stamps.len() > 0 {
        if i < recent(stamps.drop_last(), now).len() {
            all_recent_are(stamps.drop_last(), now, i);
        }
    }
}

/// How long a user must still wait who posted last at `last`, where posts are
/// to be `seconds` apart.
pub open spec fn wait_left(last: Option<u64>, seconds: i64, now: u64) -> Result<(), i64> {
    if seconds <= 0 {
        Ok(())
    } else {
        match last {
            Some(t) if seconds_between(t, now) < seconds => Err((seconds - seconds_between(t, now)) as i64),
            _ => Ok(()),
        }
    }
}

/// When a user posted last.
pub open spec fn last_of(posts: Map<Seq<char>, u64>, username: Seq<char>) -> Option<u64> {
    if posts.contains_key(username) {
        Some(posts[username])
    } else {
        None
    }
}

/// What is kept after a user asked to post.
pub open spec fn posted(
    posts: Map<Seq<char>, u64>,
    username: Seq<char>,
    seconds: i64,
    now: u64,
) -> Map<Seq<char>, u64> {
    if wait_left(last_of(posts, username), seconds, now) is Ok {
        posts.insert(username, now)
    } else {
        posts
    }
}

/// When each user posted last, to keep their posts a configurable delay apart:
/// a group's "slow mode", apart from the limit on actions in a minute.
pub struct SlowModeTracker {
    clock: Stopwatch,
    last_post: StringHashMap<u64>,
}

impl View for SlowModeTracker {
    type V = Map<Seq<char>, u64>;

    closed spec fn view(&self) -> Map<Seq<char>, u64> {
        self.last_post@
    }
}

impl SlowModeTracker {
    /// A tracker that has seen nothing.
    pub fn new() -> (res: SlowModeTracker)
        ensures
            res@ == Map::<Seq<char>, u64>::empty(),
    {
        SlowModeTracker { clock: Stopwatch::start(), last_post: StringHashMap::new() }
    }

    /// The nanoseconds since the tracker was made.
    pub fn now(&self) -> u64 {
        self.clock.read()
    }

    /// Whether a user may post at a given moment, which is then recorded, or how
    /// many seconds they must still wait. A post that is let through is recorded
    /// without a delay too.
    pub fn check_and_record_at(&mut self, username: &str, seconds: i64, now: u64) -> (res: Result<
        (),
        i64,
    >)
        ensures
            res == wait_left(last_of(old(self)@, username@), seconds, now),
            final(self)@ == posted(old(self)@, username@, seconds, now),
    {
        if seconds > 0 {
            if let Some(last) = self.last_post.get(username) {
                let elapsed: i64 = whole_seconds(*last, now) as i64;
                if elapsed < seconds {
                    return Err(seconds - elapsed);
                }
            }
        }
        self.last_post.insert(username.to_owned(), now);
        Ok(())
    }

    /// Whether a user may post now, which is then recorded, or how many seconds
    /// they must still wait.
    pub fn check_and_record(&mut self, username: &str, seconds: i64) -> (res: Result<(), i64>)
        ensures
            seconds <= 0 ==> res == Ok::<(), i64>(()),
            exists|now: u64|
                res == #[trigger] wait_left(last_of(old(self)@, username@), seconds, now)
                    && final(self)@ == posted(old(self)@, username@, seconds, now),
    {
        let now: u64 = self.clock.read();
        self.check_and_record_at(username, seconds, now)
    }
}

/// A post that is let through is recorded, whatever the delay, and one that is
/// not leaves everything as it was.
pub proof fn posts_let_through_are_recorded(
    posts: Map<Seq<char>, u64>,
    username: Seq<char>,
    seconds: i64,
    now: u64,
)
    ensures
        wait_left(last_of(posts, username), seconds, now) is Ok ==> posted(posts, username, seconds, now)
            == posts.insert(username, now),
        wait_left(last_of(posts, username), seconds, now) is Err ==> posted(posts, username, seconds, now)
            == posts,
{
}

/// Two posts that slow mode lets through are at least its delay apart, whatever
/// the delay was at the first of them, and the wait that it names is long enough.
pub proof fn slow_posts_are_apart(
    posts: Map<Seq<char>, u64>,
    username: Seq<char>,
    earlier: i64,
    seconds: i64,
    first: u64,
    second: u64,
)
    requires
        seconds > 0,
        first <= second,
        wait_left(last_of(posts, username), earlier, first) is Ok,
    ensures
        wait_left(last_of(posted(posts, username, earlier, first), username), seconds, second) is Ok
            <==> second - first >= seconds * 1_000_000_000,
        wait_left(last_of(posted(posts, username, earlier, first), username), seconds, second)
            matches Err(w) ==> 0 < w <= seconds && second + w * 1_000_000_000 - first >= seconds
            * 1_000_000_000,
{
}

} // verus!
