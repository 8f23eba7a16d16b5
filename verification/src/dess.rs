//! Overrides of the dynamic energy service.
//!
//! The service may replace the grid setpoint and the feed-in policy. Its values are
//! observed here; when they stop changing for too long the service is taken for dead and
//! everything reverts to what the user configured, until a value changes again. Times are
//! nanoseconds on a clock that never runs backwards.

use crate::num::Num;
use vstd::prelude::*;

verus! {

/// The watchdog period: 300 s, in nanoseconds.
pub const WATCHDOG_NS: u64 = 300_000_000_000;

/// The feed-in policy of the service.
#[derive(Clone, Copy, Debug, PartialEq, Eq, Structural)]
pub enum FeedInExcess {
    /// As the user configured.
    Follow,
    /// No feed-in of excess.
    Disable,
    /// Feed excess in.
    Enable,
}

impl FeedInExcess {
    pub open spec fn spec_from_i32(v: i32) -> FeedInExcess {
        if v == 1 {
            FeedInExcess::Disable
        } else if v == 2 {
            FeedInExcess::Enable
        } else {
            FeedInExcess::Follow
        }
    }

    /// Decode the number; whatever is neither 1 nor 2 follows the user.
    #[verifier::when_used_as_spec(spec_from_i32)]
    pub fn from_i32(v: i32) -> (r: Self)
        ensures
            r == FeedInExcess::from_i32(v),
    {
        match v {
            1 => FeedInExcess::Disable,
            2 => FeedInExcess::Enable,
            _ => FeedInExcess::Follow,
        }
    }
}

/// The override that holds in one tick.
#[derive(Clone, Copy, Debug, PartialEq, Eq, Structural)]
pub struct DessOut {
    /// A fresh, finite setpoint; `None` means the configured one.
    pub target_override: Option<Num>,
    pub feed_in_excess: i32,
}

impl DessOut {
    pub open spec fn spec_target(&self, configured_setpoint: Num) -> Num {
        match self.target_override {
            Some(x) => x,
            None => configured_setpoint,
        }
    }

    /// The setpoint that holds.
    #[verifier::when_used_as_spec(spec_target)]
    pub fn target(&self, configured_setpoint: Num) -> (r: Num)
        ensures
            r == self.target(configured_setpoint),
    {
        match self.target_override {
            Some(x) => x,
            None => configured_setpoint,
        }
    }

    /// The policy that holds.
    pub fn feedin(&self) -> (r: FeedInExcess)
        ensures
            r == FeedInExcess::from_i32(self.feed_in_excess),
    {
        FeedInExcess::from_i32(self.feed_in_excess)
    }
}

/// What was observed of the overrides, and when it last changed.
#[derive(Clone, Copy, Debug, PartialEq, Eq, Structural)]
pub struct Dess {
    pub last_setpoint: Option<Num>,
    pub last_feedin: i32,
    pub last_activity_ns: u64,
    /// The values last observed hold an override: the watchdog runs.
    pub armed: bool,
}

/// A setpoint override counts only where it is finite; 0 and negative values do count.
pub open spec fn observed_setpoint(read: Option<Num>) -> Option<Num> {
    if read is Some && read->0.is_finite() {
        read
    } else {
        None
    }
}

pub open spec fn observed_feedin(read: Option<i32>) -> i32 {
    match read {
        Some(v) => v,
        None => 0,
    }
}

impl Dess {
    pub fn new(now_ns: u64) -> (d: Self)
        ensures
            d == (Dess {
                last_setpoint: None,
                last_feedin: 0,
                last_activity_ns: now_ns,
                armed: false,
            }),
    {
        Dess { last_setpoint: None, last_feedin: 0, last_activity_ns: now_ns, armed: false }
    }

    /// Do the observed values differ from the last ones?
    pub open spec fn moved(self, setpoint: Option<Num>, feedin: i32) -> bool {
        setpoint != self.last_setpoint || feedin != self.last_feedin
    }

    /// Is any override set?
    pub open spec fn set(setpoint: Option<Num>, feedin: i32) -> bool {
        setpoint is Some || feedin != 0
    }

    /// The state once the observation is noted: a change, or the first sight of an
    /// override, counts as a sign of life.
    pub open spec fn noted(self, setpoint: Option<Num>, feedin: i32, now_ns: u64) -> Dess {
        if self.moved(setpoint, feedin) {
            Dess {
                last_setpoint: setpoint,
                last_feedin: feedin,
                last_activity_ns: now_ns,
                armed: Dess::set(setpoint, feedin),
            }
        } else if Dess::set(setpoint, feedin) && !self.armed {
            Dess { last_activity_ns: now_ns, armed: true, ..self }
        } else {
            self
        }
    }

    /// Has there been no sign of life for longer than the watchdog period?
    pub open spec fn stale(self, now_ns: u64) -> bool {
        self.armed && now_ns - self.last_activity_ns > WATCHDOG_NS
    }

    /// The override that holds.
    pub open spec fn resolved(self, setpoint: Option<Num>, feedin: i32, now_ns: u64) -> DessOut {
        if self.noted(setpoint, feedin, now_ns).stale(now_ns) {
            DessOut { target_override: None, feed_in_excess: 0 }
        } else {
            DessOut { target_override: setpoint, feed_in_excess: feedin }
        }
    }

    /// The state after the tick. A stale override leaves the watchdog as it is, so that it
    /// stays stale until a value changes.
    pub open spec fn after(self, setpoint: Option<Num>, feedin: i32, now_ns: u64) -> Dess {
        self.noted(setpoint, feedin, now_ns)
    }

    /// The state after ticks at each of the given times, the values read being the same.
    pub open spec fn after_all(
        self,
        setpoint: Option<Num>,
        feedin: i32,
        times_ns: Seq<u64>,
    ) -> Dess
        decreases times_ns.len(),
    {
        if times_ns.len() == 0 {
            self
        } else {
            self.after_all(setpoint, feedin, times_ns.drop_last()).after(
                setpoint,
                feedin,
                times_ns.last(),
            )
        }
    }

    /// One tick: `setpoint` and `feedin` as read, `None` where invalid or unread.
    pub fn tick(&mut self, setpoint: Option<Num>, feedin: Option<i32>, now_ns: u64) -> (out: DessOut)
        ensures
            out == old(self).resolved(observed_setpoint(setpoint), observed_feedin(feedin), now_ns),
            *final(self) == old(self).after(
                observed_setpoint(setpoint),
                observed_feedin(feedin),
                now_ns,
            ),
    {
        let setpoint = match setpoint {
            Some(x) => if x.is_finite() {
                Some(x)
            } else {
                None
            },
            None => None,
        };
        let feedin: i32 = match feedin {
            Some(v) => v,
            None => 0,
        };
        let active = setpoint.is_some() || feedin != 0;
        let same_setpoint = match (setpoint, self.last_setpoint) {
            (Some(a), Some(b)) => a == b,
            (None, None) => true,
            _ => false,
        };
        if !same_setpoint || feedin != self.last_feedin {
            self.last_setpoint = setpoint;
            self.last_feedin = feedin;
            self.last_activity_ns = now_ns;
            self.armed = active;
        } else if active && !self.armed {
            self.last_activity_ns = now_ns;
            self.armed = true;
        }
        let stale = self.armed && now_ns >= self.last_activity_ns && now_ns - self.last_activity_ns
            > WATCHDOG_NS;
        if stale {
            return DessOut { target_override: None, feed_in_excess: 0 };
        }
        DessOut { target_override: setpoint, feed_in_excess: feedin }
    }
}

/// An absent, invalid or non-finite setpoint override leaves the configured setpoint;
/// a finite one, 0 and negative values included, replaces it.
pub proof fn only_a_finite_override_replaces_the_setpoint(
    d: Dess,
    read: Option<Num>,
    feedin: Option<i32>,
    now_ns: u64,
    configured: Num,
)
    ensures
        ({
            let out = d.resolved(observed_setpoint(read), observed_feedin(feedin), now_ns);
            out.target(configured) == configured || (read is Some && read->0.is_finite()
                && out.target(configured) == read->0)
        }),
        read is None || !read->0.is_finite() ==> d.resolved(
            observed_setpoint(read),
            observed_feedin(feedin),
            now_ns,
        ).target(configured) == configured,
        read is Some && read->0.is_finite() && d.moved(read, observed_feedin(feedin))
            ==> d.resolved(observed_setpoint(read), observed_feedin(feedin), now_ns).target(
            configured,
        ) == read->0,
{
}

/// The watchdog: from the tick that saw them on, values that do not change hold for the
/// watchdog period after the last sign of life and are ignored past it, whatever state
/// they were first seen in.
pub proof fn watchdog_reverts_a_silent_override(
    d: Dess,
    setpoint: Option<Num>,
    feedin: i32,
    seen_ns: u64,
    now_ns: u64,
)
    ensures
        ({
            let n = d.after(setpoint, feedin, seen_ns);
            n.resolved(setpoint, feedin, now_ns) == (if now_ns - n.last_activity_ns > WATCHDOG_NS {
                DessOut { target_override: None, feed_in_excess: 0 }
            } else {
                DessOut { target_override: setpoint, feed_in_excess: feedin }
            })
        }),
{
}

/// An override that the watchdog has reverted stays reverted: however many ticks follow
/// that read the same values, none of them hands it back.
pub proof fn reverted_override_stays_reverted(
    d: Dess,
    setpoint: Option<Num>,
    feedin: i32,
    now_ns: u64,
    times_ns: Seq<u64>,
    later_ns: u64,
)
    requires
        d.resolved(setpoint, feedin, now_ns) == (DessOut {
            target_override: None,
            feed_in_excess: 0,
        }),
        forall|i: int| 0 <= i < times_ns.len() ==> now_ns <= #[trigger] times_ns[i],
        now_ns <= later_ns,
    ensures
        d.after(setpoint, feedin, now_ns).after_all(setpoint, feedin, times_ns).resolved(
            setpoint,
            feedin,
            later_ns,
        ) == (DessOut { target_override: None, feed_in_excess: 0 }),
{
    let n = d.after(setpoint, feedin, now_ns);
    after_all_changes_nothing(n, setpoint, feedin, times_ns);
}

/// Once noted, the same values change nothing more.
proof fn after_all_changes_nothing(
    n: Dess,
    setpoint: Option<Num>,
    feedin: i32,
    times_ns: Seq<u64>,
)
    requires
        !n.moved(setpoint, feedin),
        Dess::set(setpoint, feedin) ==> n.armed,
    ensures
        n.after_all(setpoint, feedin, times_ns) == n,
    decreases times_ns.len(),
{
    if times_ns.len() > 0 {
        after_all_changes_nothing(n, setpoint, feedin, times_ns.drop_last());
    }
}

/// Any change of an override is a sign of life: it holds from that tick on for at least
/// the watchdog period.
pub proof fn a_change_rearms_the_watchdog(
    d: Dess,
    setpoint: Option<Num>,
    feedin: i32,
    now_ns: u64,
    later_ns: u64,
)
    requires
        d.moved(setpoint, feedin),
        now_ns <= later_ns,
        later_ns - now_ns <= WATCHDOG_NS,
    ensures
        d.resolved(setpoint, feedin, now_ns) == (DessOut {
            target_override: setpoint,
            feed_in_excess: feedin,
        }),
        d.after(setpoint, feedin, now_ns).resolved(setpoint, feedin, later_ns) == (DessOut {
            target_override: setpoint,
            feed_in_excess: feedin,
        }),
{
}

/// Either value is a sign of life: a change of the setpoint alone, or of the policy
/// alone, has the override hold and the watchdog start anew; the same values do not.
pub proof fn either_value_is_a_sign_of_life(
    d: Dess,
    setpoint: Option<Num>,
    feedin: i32,
    now_ns: u64,
)
    ensures
        setpoint != d.last_setpoint || feedin != d.last_feedin ==> ({
            let n = d.after(setpoint, feedin, now_ns);
            &&& n.last_activity_ns == now_ns
            &&& n.last_setpoint == setpoint && n.last_feedin == feedin
            &&& n.armed <==> setpoint is Some || feedin != 0
        }),
        setpoint == d.last_setpoint && feedin == d.last_feedin && d.armed ==> d.after(
            setpoint,
            feedin,
            now_ns,
        ) == d,
        setpoint == d.last_setpoint && feedin == d.last_feedin && !d.armed && (setpoint is Some
            || feedin != 0) ==> d.after(setpoint, feedin, now_ns).last_activity_ns == now_ns
            && d.after(setpoint, feedin, now_ns).armed,
{
}

/// What is observed is what was read: a finite setpoint as it is, no policy as 0; and of
/// the policies 1 is no feed-in, 2 feed-in, and everything else the user's.
pub proof fn overrides_are_observed_as_they_are(x: i64, v: i32)
    ensures
        observed_setpoint(Some(Num::Fin(x))) == Some(Num::Fin(x)),
        observed_setpoint(None) is None,
        observed_setpoint(Some(Num::Nan)) is None,
        observed_setpoint(Some(Num::PosInf)) is None,
        observed_feedin(Some(v)) == v,
        observed_feedin(None) == 0,
        FeedInExcess::from_i32(v) == FeedInExcess::Disable <==> v == 1,
        FeedInExcess::from_i32(v) == FeedInExcess::Enable <==> v == 2,
{
}

} // verus!
