//! The published tree and the store of machine-written overrides.
//!
//! Overrides written from outside hold for a limited time: every accepted write sets the
//! deadline anew, and when it passes all of them revert. Times are nanoseconds on a clock
//! that never runs backwards.

use crate::num::Num;
use vstd::prelude::*;

verus! {

/// How long overrides hold: 300 s, in nanoseconds.
pub const OVERRIDE_TTL_NS: u64 = 300_000_000_000;

pub const DEVICE_INSTANCE: i32 = 0;

/// What the service publishes; `None` is the invalid value.
#[derive(Clone, Copy, Debug, PartialEq, Eq, Structural)]
pub struct Published {
    pub max_charge_power: Option<Num>,
    pub max_discharge_power: Option<Num>,
    pub alarms_no_grid_meter: i32,
    /// 0 is fine, 1 a warning, 2 an alarm.
    pub alarms_ess_safety: i32,
    pub overrides_force_charge: i32,
    pub overrides_setpoint: Option<Num>,
    pub overrides_feed_in_excess: i32,
    pub pv_disable: i32,
    pub pv_limiter_active: i32,
}

impl Published {
    pub open spec fn blank() -> Published {
        Published {
            max_charge_power: None,
            max_discharge_power: None,
            alarms_no_grid_meter: 0,
            alarms_ess_safety: 0,
            overrides_force_charge: 0,
            overrides_setpoint: None,
            overrides_feed_in_excess: 0,
            pv_disable: 0,
            pv_limiter_active: 0,
        }
    }
}

impl Default for Published {
    fn default() -> (r: Self)
        ensures
            r == Published::blank(),
    {
        Published {
            max_charge_power: None,
            max_discharge_power: None,
            alarms_no_grid_meter: 0,
            alarms_ess_safety: 0,
            overrides_force_charge: 0,
            overrides_setpoint: None,
            overrides_feed_in_excess: 0,
            pv_disable: 0,
            pv_limiter_active: 0,
        }
    }
}

/// Machine-written overrides with their deadline.
#[derive(Clone, Copy, Debug, PartialEq, Eq, Structural)]
pub struct OverrideStore {
    pub setpoint: Option<Num>,
    pub feed_in_excess: i32,
    pub force_charge: bool,
    pub deadline_ns: Option<u64>,
    pub ttl_ns: u64,
}

impl OverrideStore {
    /// A store without overrides.
    pub open spec fn inert(ttl_ns: u64) -> OverrideStore {
        OverrideStore {
            setpoint: None,
            feed_in_excess: 0,
            force_charge: false,
            deadline_ns: None,
            ttl_ns,
        }
    }

    pub fn new(ttl_ns: u64) -> (s: Self)
        ensures
            s == OverrideStore::inert(ttl_ns),
    {
        OverrideStore {
            setpoint: None,
            feed_in_excess: 0,
            force_charge: false,
            deadline_ns: None,
            ttl_ns,
        }
    }

    /// The store with its deadline set anew at `now_ns`.
    pub open spec fn rearmed(self, now_ns: u64) -> OverrideStore {
        OverrideStore { deadline_ns: Some((now_ns + self.ttl_ns) as u64), ..self }
    }

    fn rearm(&mut self, now_ns: u64)
        requires
            now_ns + old(self).ttl_ns <= u64::MAX,
        ensures
            *final(self) == old(self).rearmed(now_ns),
    {
        self.deadline_ns = Some(now_ns + self.ttl_ns);
    }

    /// Accept a setpoint; a value that is invalid or not finite clears the override.
    pub fn set_setpoint(&mut self, v: Option<Num>, now_ns: u64)
        requires
            now_ns + old(self).ttl_ns <= u64::MAX,
        ensures
            *final(self) == (OverrideStore {
                setpoint: if v is Some && v->0.is_finite() {
                    v
                } else {
                    None
                },
                ..*old(self)
            }).rearmed(now_ns),
    {
        self.setpoint = match v {
            Some(x) => if x.is_finite() {
                Some(x)
            } else {
                None
            },
            None => None,
        };
        self.rearm(now_ns);
    }

    /// Accept a feed-in policy, held between 0 and 2.
    pub fn set_feed_in_excess(&mut self, v: i32, now_ns: u64)
        requires
            now_ns + old(self).ttl_ns <= u64::MAX,
        ensures
            *final(self) == (OverrideStore {
                feed_in_excess: if v < 0 {
                    0
                } else if v > 2 {
                    2
                } else {
                    v
                },
                ..*old(self)
            }).rearmed(now_ns),
    {
        self.feed_in_excess = if v < 0 {
            0
        } else if v > 2 {
            2
        } else {
            v
        };
        self.rearm(now_ns);
    }

    /// Accept a force-charge.
    pub fn set_force_charge(&mut self, v: bool, now_ns: u64)
        requires
            now_ns + old(self).ttl_ns <= u64::MAX,
        ensures
            *final(self) == (OverrideStore { force_charge: v, ..*old(self) }).rearmed(now_ns),
    {
        self.force_charge = v;
        self.rearm(now_ns);
    }

    /// The store at `now_ns`: from the deadline on there are no overrides.
    pub open spec fn at(self, now_ns: u64) -> OverrideStore {
        if self.deadline_ns is Some && now_ns >= self.deadline_ns->0 {
            OverrideStore::inert(self.ttl_ns)
        } else {
            self
        }
    }

    /// Drop the overrides if their time has passed.
    pub fn expire(&mut self, now_ns: u64)
        ensures
            *final(self) == old(self).at(now_ns),
    {
        if let Some(dl) = self.deadline_ns {
            if now_ns >= dl {
                self.setpoint = None;
                self.feed_in_excess = 0;
                self.force_charge = false;
                self.deadline_ns = None;
            }
        }
    }

    /// Is the deadline running?
    pub fn active(&self) -> (r: bool)
        ensures
            r == (self.deadline_ns is Some),
    {
        self.deadline_ns.is_some()
    }
}

/// The published tree together with the overrides.
#[derive(Clone, Copy, Debug, PartialEq, Eq, Structural)]
pub struct Hub4Service {
    pub published: Published,
    pub overrides: OverrideStore,
}

impl Default for Hub4Service {
    fn default() -> (s: Self)
        ensures
            s.published == Published::blank(),
            s.overrides == OverrideStore::inert(OVERRIDE_TTL_NS),
    {
        Hub4Service::new()
    }
}

impl Hub4Service {
    pub fn new() -> (s: Self)
        ensures
            s.published == Published::blank(),
            s.overrides == OverrideStore::inert(OVERRIDE_TTL_NS),
    {
        Hub4Service { published: Published::default(), overrides: OverrideStore::new(OVERRIDE_TTL_NS) }
    }

    /// Replace the published tree.
    pub fn publish(&mut self, values: Published)
        ensures
            *final(self) == (Hub4Service { published: values, ..*old(self) }),
    {
        self.published = values;
    }

    /// The overrides that hold at `now_ns`: setpoint, feed-in policy, force-charge.
    pub fn overrides_now(&mut self, now_ns: u64) -> (r: (Option<Num>, i32, bool))
        ensures
            *final(self) == (Hub4Service { overrides: old(self).overrides.at(now_ns), ..*old(self) }),
            r == (
                old(self).overrides.at(now_ns).setpoint,
                old(self).overrides.at(now_ns).feed_in_excess,
                old(self).overrides.at(now_ns).force_charge,
            ),
    {
        self.overrides.expire(now_ns);
        (self.overrides.setpoint, self.overrides.feed_in_excess, self.overrides.force_charge)
    }

    /// The published tree, to read.
    pub fn published_handle(&self) -> (r: &Published)
        ensures
            *r == self.published,
    {
        &self.published
    }

    /// The overrides, to write.
    pub fn overrides_handle(&mut self) -> (r: &mut OverrideStore)
        ensures
            *r == old(self).overrides,
            *final(self) == (Hub4Service { overrides: *final(r), ..*old(self) }),
    {
        &mut self.overrides
    }
}

/// An override holds for exactly the lifetime after its last write: up to the deadline
/// it stands, and from then on everything has reverted.
pub proof fn overrides_hold_until_the_deadline(s: OverrideStore, now_ns: u64, later_ns: u64)
    requires
        now_ns + s.ttl_ns <= u64::MAX,
        now_ns <= later_ns,
    ensures
        later_ns < now_ns + s.ttl_ns ==> s.rearmed(now_ns).at(later_ns) == s.rearmed(now_ns),
        later_ns >= now_ns + s.ttl_ns ==> s.rearmed(now_ns).at(later_ns) == OverrideStore::inert(
            s.ttl_ns,
        ),
{
}

/// A later write outlives the first deadline.
pub proof fn a_write_rearms_the_deadline(
    s: OverrideStore,
    first_ns: u64,
    second_ns: u64,
    later_ns: u64,
)
    requires
        first_ns <= second_ns <= later_ns,
        second_ns + s.ttl_ns <= u64::MAX,
        later_ns < second_ns + s.ttl_ns,
    ensures
        s.rearmed(first_ns).rearmed(second_ns).at(later_ns) == s.rearmed(second_ns),
{
}

} // verus!
