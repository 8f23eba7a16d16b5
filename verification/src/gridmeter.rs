//! Grid-meter presence guard.
//!
//! Once per presence tick (2.5 s) the guard decides whether a setpoint may be written
//! and what to regulate on, and runs the countdown to the "no grid meter" alarm. A meter
//! that is on the bus but whose value has stopped moving is treated as absent. In doubt
//! nothing is written: the inverter then falls back to passing the grid through.

use crate::num::Num;
use crate::states::hub4mode;
use vstd::prelude::*;

verus! {

/// Absent ticks until the alarm: 48 of 2.5 s are 120 s.
pub const GRACE_TICKS: u32 = 48;

/// The presence tick, in nanoseconds.
pub const PRESENCE_TICK_NS: u64 = 2_500_000_000;

/// The active-input number that means no AC input.
pub const ACTIVEIN_DISCONNECTED: i32 = 240;

/// The AC source number of a generator.
pub const SOURCE_GENERATOR: i32 = 2;

/// The mode in which an external controller runs the loop.
pub const HUB4MODE_EXTERNAL: i32 = hub4mode::EXTERNAL;

/// Ticks without change after which a meter is frozen: 6 of 2.5 s are 15 s.
pub const STALE_TICKS: u32 = 6;

/// The state of the meter's presence.
#[derive(Clone, Copy, Debug, PartialEq, Eq, Structural)]
pub enum Presence {
    /// Present and usable.
    Present,
    /// Absent, within the grace period.
    Grace,
    /// Absent for too long: raise the alarm.
    Missing,
    /// No meter is needed.
    NotApplicable,
}

/// What to regulate on.
#[derive(Clone, Copy, Debug, PartialEq, Eq, Structural)]
pub enum Regulation {
    /// Write nothing.
    Skip,
    /// The grid meter.
    OnGridMeter,
    /// The inverter's own AC-in power.
    OnMultiInput,
}

/// A grid meter as read; a field is `None` where the read failed.
#[derive(Debug)]
pub struct Meter {
    pub service: String,
    pub power: Option<Num>,
    /// The power of the first phase, for a meter without a total.
    pub l1_power: Option<Num>,
}

/// One pass of reads; a field is `None` where the read failed.
#[derive(Clone, Copy, Debug, PartialEq, Eq, Structural)]
pub struct Reads {
    pub hub4mode: Option<i32>,
    /// The inverter's AC-in power.
    pub multi_input: Option<Num>,
    pub run_without_meter: Option<bool>,
    pub grid_meter_required: Option<bool>,
    pub source: Option<i32>,
    pub active_input: Option<i32>,
    /// The grid power as republished by the system.
    pub system_grid: Option<Num>,
}

/// What one tick goes by.
#[derive(Clone, Copy, Debug, PartialEq, Eq, Structural)]
pub struct Inputs {
    pub hub4mode: i32,
    pub multi_valid: bool,
    pub run_without_meter: bool,
    pub grid_meter_required: bool,
    pub source: i32,
    pub active_input: i32,
}

impl Reads {
    /// The inputs that one pass of reads stands for: an unread mode is external, an
    /// unread meter requirement is a requirement, and no AC input is never assumed.
    pub open spec fn inputs(self) -> Inputs {
        Inputs {
            hub4mode: match self.hub4mode {
                Some(m) => m,
                None => HUB4MODE_EXTERNAL,
            },
            multi_valid: self.multi_input is Some && self.multi_input->0.is_finite(),
            run_without_meter: self.run_without_meter == Some(true),
            grid_meter_required: self.grid_meter_required != Some(false),
            source: crate::feedin::zero_if_unread(self.source),
            active_input: crate::feedin::zero_if_unread(self.active_input),
        }
    }
}

/// The decision of one tick.
#[derive(Clone, Copy, Debug, PartialEq, Eq, Structural)]
pub struct GridMeterGuardOut {
    /// A meter is present and fresh.
    pub usable: bool,
    pub should_write_setpoint: bool,
    pub alarm_no_grid_meter: bool,
    pub run_without_meter: bool,
    pub regulate: Regulation,
    pub presence: Presence,
    /// A meter is present but frozen.
    pub stale: bool,
}

/// The value of a meter: its total, else its first phase, where that is finite.
pub open spec fn value_of(m: Meter) -> Option<Num> {
    let v = match m.power {
        Some(p) => Some(p),
        None => m.l1_power,
    };
    if v is Some && v->0.is_finite() {
        v
    } else {
        None
    }
}

fn meter_value(m: &Meter) -> (r: Option<Num>)
    ensures
        r == value_of(*m),
{
    let v = match m.power {
        Some(p) => Some(p),
        None => m.l1_power,
    };
    match v {
        Some(x) => if x.is_finite() {
            Some(x)
        } else {
            None
        },
        None => None,
    }
}

/// The position of the meter to use, from `from` on: the first with a value.
pub open spec fn first_meter(ms: Seq<Meter>, from: int) -> Option<int>
    decreases ms.len() - from,
{
    if from < 0 || from >= ms.len() {
        None
    } else if value_of(ms[from]) is Some {
        Some(from)
    } else {
        first_meter(ms, from + 1)
    }
}

/// The value to go by: that of the first meter that has one, else what the system
/// republishes.
pub open spec fn meter_reading(ms: Seq<Meter>, system_grid: Option<Num>) -> Option<Num> {
    match first_meter(ms, 0) {
        Some(k) => value_of(ms[k]),
        None => if system_grid is Some && system_grid->0.is_finite() {
            system_grid
        } else {
            None
        },
    }
}

/// The service adopted with it; none for the republished value.
pub open spec fn adopted(ms: Seq<Meter>) -> Option<Seq<char>> {
    match first_meter(ms, 0) {
        Some(k) => Some(ms[k].service@),
        None => None,
    }
}

/// The guard.
pub struct GridMeterGuard {
    /// Ticks left of the grace period.
    pub grace: u32,
    pub last_meter_value: Option<Num>,
    /// For how many ticks the value has not moved.
    pub unchanged_ticks: u32,
    pub meter_service: Option<String>,
    pub frozen_guard: bool,
}

impl Default for GridMeterGuard {
    fn default() -> (g: Self)
        ensures
            g.grace == GRACE_TICKS,
            g.last_meter_value is None,
            g.unchanged_ticks == 0,
            g.meter_service is None,
            g.frozen_guard,
    {
        GridMeterGuard::new()
    }
}

impl GridMeterGuard {
    /// A guard that treats a frozen meter as absent.
    pub fn new() -> (g: Self)
        ensures
            g.grace == GRACE_TICKS,
            g.last_meter_value is None,
            g.unchanged_ticks == 0,
            g.meter_service is None,
            g.frozen_guard,
    {
        GridMeterGuard {
            grace: GRACE_TICKS,
            last_meter_value: None,
            unchanged_ticks: 0,
            meter_service: None,
            frozen_guard: true,
        }
    }

    /// Switch the test for a frozen meter on or off.
    pub fn with_frozen_guard(self, on: bool) -> (g: Self)
        ensures
            g == (GridMeterGuard { frozen_guard: on, ..self }),
    {
        let mut g = self;
        g.frozen_guard = on;
        g
    }

    /// The service of the meter in use, if any.
    pub fn meter_service(&self) -> (r: Option<&str>)
        ensures
            match r {
                Some(s) => self.meter_service is Some && s@ == self.meter_service->0@,
                None => self.meter_service is None,
            },
    {
        match &self.meter_service {
            Some(s) => Some(s.as_str()),
            None => None,
        }
    }

    fn read_meter(&mut self, ms: &Vec<Meter>, system_grid: Option<Num>) -> (r: Option<Num>)
        ensures
            r == meter_reading(ms@, system_grid),
            crate::text::text(final(self).meter_service) == adopted(ms@),
            final(self).grace == old(self).grace,
            final(self).last_meter_value == old(self).last_meter_value,
            final(self).unchanged_ticks == old(self).unchanged_ticks,
            final(self).frozen_guard == old(self).frozen_guard,
    {
        let mut k: usize = 0;
        while k < ms.len()
            invariant
                k <= ms.len(),
                first_meter(ms@, 0) == first_meter(ms@, k as int),
                *self == *old(self),
            decreases ms.len() - k,
        {
            if let Some(v) = meter_value(&ms[k]) {
                self.meter_service = Some(ms[k].service.clone());
                return Some(v);
            }
            k += 1;
        }
        self.meter_service = None;
        match system_grid {
            Some(v) => if v.is_finite() {
                Some(v)
            } else {
                None
            },
            None => None,
        }
    }

    /// For how many ticks the value will have stood still after reading `raw`.
    pub open spec fn unchanged_after(self, raw: Option<Num>) -> u32 {
        match (raw, self.last_meter_value) {
            (Some(v), Some(prev)) => if prev.same(v) {
                if self.unchanged_ticks < u32::MAX {
                    (self.unchanged_ticks + 1) as u32
                } else {
                    u32::MAX
                }
            } else {
                0
            },
            _ => 0,
        }
    }

    /// Has the value moved recently enough?
    pub open spec fn fresh_after(self, raw: Option<Num>) -> bool {
        raw is Some && (!self.frozen_guard || self.unchanged_after(raw) < STALE_TICKS)
    }

    fn update_freshness(&mut self, raw: Option<Num>) -> (r: (bool, bool))
        ensures
            r == (raw is Some, old(self).fresh_after(raw)),
            *final(self) == (GridMeterGuard {
                last_meter_value: raw,
                unchanged_ticks: old(self).unchanged_after(raw),
                ..*old(self)
            }),
    {
        match raw {
            Some(v) => {
                let repeat = match self.last_meter_value {
                    Some(prev) => prev.same(v),
                    None => false,
                };
                if repeat {
                    if self.unchanged_ticks < u32::MAX {
                        self.unchanged_ticks = self.unchanged_ticks + 1;
                    }
                } else {
                    self.unchanged_ticks = 0;
                }
                self.last_meter_value = Some(v);
                let fresh = !self.frozen_guard || self.unchanged_ticks < STALE_TICKS;
                (true, fresh)
            },
            None => {
                self.last_meter_value = None;
                self.unchanged_ticks = 0;
                (false, false)
            },
        }
    }

    fn read_inputs(r: &Reads) -> (i: Inputs)
        ensures
            i == r.inputs(),
    {
        Inputs {
            hub4mode: match r.hub4mode {
                Some(m) => m,
                None => HUB4MODE_EXTERNAL,
            },
            multi_valid: match r.multi_input {
                Some(v) => v.is_finite(),
                None => false,
            },
            run_without_meter: match r.run_without_meter {
                Some(b) => b,
                None => false,
            },
            grid_meter_required: match r.grid_meter_required {
                Some(b) => b,
                None => true,
            },
            source: match r.source {
                Some(s) => s,
                None => 0,
            },
            active_input: match r.active_input {
                Some(a) => a,
                None => 0,
            },
        }
    }

    /// Is there nothing to do? Someone else runs the loop, or the inverter cannot be read.
    pub open spec fn inert(i: Inputs, mode3_is_ours: bool) -> bool {
        (i.hub4mode == HUB4MODE_EXTERNAL && !mode3_is_ours) || !i.multi_valid
    }

    /// What to regulate on.
    pub open spec fn regulation(i: Inputs, mode3_is_ours: bool, usable: bool) -> Regulation {
        if GridMeterGuard::inert(i, mode3_is_ours) {
            Regulation::Skip
        } else if i.run_without_meter || i.source == SOURCE_GENERATOR {
            Regulation::OnMultiInput
        } else if usable {
            Regulation::OnGridMeter
        } else if !i.grid_meter_required {
            Regulation::OnMultiInput
        } else {
            Regulation::Skip
        }
    }

    /// The presence, given the grace that is left.
    pub open spec fn presence_for(
        i: Inputs,
        mode3_is_ours: bool,
        usable: bool,
        grace: u32,
    ) -> Presence {
        if GridMeterGuard::inert(i, mode3_is_ours) || i.run_without_meter || i.source
            == SOURCE_GENERATOR {
            Presence::NotApplicable
        } else if usable {
            Presence::Present
        } else if i.active_input == ACTIVEIN_DISCONNECTED {
            Presence::NotApplicable
        } else if grace > 1 {
            Presence::Grace
        } else {
            Presence::Missing
        }
    }

    /// The grace that is left afterwards.
    pub open spec fn grace_for(p: Presence, grace: u32) -> u32 {
        match p {
            Presence::Present | Presence::NotApplicable => GRACE_TICKS,
            Presence::Grace => (grace - 1) as u32,
            Presence::Missing => 0,
        }
    }

    /// The decision on a reading.
    pub open spec fn decision(
        self,
        i: Inputs,
        raw: Option<Num>,
        mode3_is_ours: bool,
    ) -> GridMeterGuardOut {
        let usable = self.fresh_after(raw);
        let regulate = GridMeterGuard::regulation(i, mode3_is_ours, usable);
        let presence = GridMeterGuard::presence_for(i, mode3_is_ours, usable, self.grace);
        GridMeterGuardOut {
            usable,
            should_write_setpoint: regulate != Regulation::Skip,
            alarm_no_grid_meter: presence == Presence::Missing,
            run_without_meter: i.run_without_meter,
            regulate,
            presence,
            stale: raw is Some && !usable,
        }
    }

    /// The guard after a reading (the adopted service aside).
    pub open spec fn after(self, i: Inputs, raw: Option<Num>, mode3_is_ours: bool) -> GridMeterGuard {
        GridMeterGuard {
            grace: GridMeterGuard::grace_for(
                GridMeterGuard::presence_for(i, mode3_is_ours, self.fresh_after(raw), self.grace),
                self.grace,
            ),
            last_meter_value: raw,
            unchanged_ticks: self.unchanged_after(raw),
            ..self
        }
    }

    /// What one tick does: `next` is the guard afterwards and `out` the decision.
    pub open spec fn ticked(
        self,
        next: GridMeterGuard,
        out: GridMeterGuardOut,
        ms: Seq<Meter>,
        reads: Reads,
        mode3_is_ours: bool,
    ) -> bool {
        let i = reads.inputs();
        let raw = meter_reading(ms, reads.system_grid);
        &&& out == self.decision(i, raw, mode3_is_ours)
        &&& next == (GridMeterGuard {
            meter_service: next.meter_service,
            ..self.after(i, raw, mode3_is_ours)
        })
        &&& crate::text::text(next.meter_service) == adopted(ms)
    }

    /// One presence tick over the meters on the bus, in their order. `mode3_is_ours`
    /// says that an external mode is our own doing.
    pub fn tick(&mut self, ms: &Vec<Meter>, reads: &Reads, mode3_is_ours: bool) -> (out:
        GridMeterGuardOut)
        ensures
            old(self).ticked(*final(self), out, ms@, *reads, mode3_is_ours),
    {
        let i = Self::read_inputs(reads);
        let raw = self.read_meter(ms, reads.system_grid);
        let (valid, fresh) = self.update_freshness(raw);
        let meter_present = valid && fresh;
        let stale = valid && !fresh;
        let genset = i.source == SOURCE_GENERATOR;
        let inert = (i.hub4mode == HUB4MODE_EXTERNAL && !mode3_is_ours) || !i.multi_valid;
        let regulate = if inert {
            Regulation::Skip
        } else if i.run_without_meter || genset {
            Regulation::OnMultiInput
        } else if meter_present {
            Regulation::OnGridMeter
        } else if !i.grid_meter_required {
            Regulation::OnMultiInput
        } else {
            Regulation::Skip
        };
        let presence = if inert || i.run_without_meter || genset {
            self.grace = GRACE_TICKS;
            Presence::NotApplicable
        } else if meter_present {
            self.grace = GRACE_TICKS;
            Presence::Present
        } else if i.active_input == ACTIVEIN_DISCONNECTED {
            self.grace = GRACE_TICKS;
            Presence::NotApplicable
        } else if self.grace > 1 {
            self.grace = self.grace - 1;
            Presence::Grace
        } else {
            self.grace = 0;
            Presence::Missing
        };
        GridMeterGuardOut {
            usable: meter_present,
            should_write_setpoint: regulate != Regulation::Skip,
            alarm_no_grid_meter: presence == Presence::Missing,
            run_without_meter: i.run_without_meter,
            regulate,
            presence,
            stale,
        }
    }
}

/// A required meter that is absent or frozen stops the writes, whatever the alarm does.
pub proof fn required_absent_meter_stops_writes(
    g: GridMeterGuard,
    i: Inputs,
    raw: Option<Num>,
    mode3_is_ours: bool,
)
    requires
        i.grid_meter_required,
        !i.run_without_meter,
        i.source != SOURCE_GENERATOR,
        !g.fresh_after(raw),
    ensures
        !g.decision(i, raw, mode3_is_ours).should_write_setpoint,
{
}

/// An unreadable inverter, or a mode held by someone else, stops the writes.
pub proof fn inert_stops_writes(
    g: GridMeterGuard,
    i: Inputs,
    raw: Option<Num>,
    mode3_is_ours: bool,
)
    requires
        !i.multi_valid || (i.hub4mode == HUB4MODE_EXTERNAL && !mode3_is_ours),
    ensures
        !g.decision(i, raw, mode3_is_ours).should_write_setpoint,
        !g.decision(i, raw, mode3_is_ours).alarm_no_grid_meter,
{
}

/// Our own external mode does not stop our writes.
pub proof fn own_mode_does_not_stop_writes(g: GridMeterGuard, i: Inputs, raw: Option<Num>)
    requires
        i.multi_valid,
        g.fresh_after(raw),
    ensures
        g.decision(i, raw, true).should_write_setpoint,
{
}

/// Reads that all failed write nothing.
pub proof fn failed_reads_write_nothing(g: GridMeterGuard, r: Reads, raw: Option<Num>, ours: bool)
    requires
        r.multi_input is None,
    ensures
        !g.decision(r.inputs(), raw, ours).should_write_setpoint,
{
}

/// The guard after `n` ticks on the same readings.
pub open spec fn repeated(
    g: GridMeterGuard,
    i: Inputs,
    raw: Option<Num>,
    ours: bool,
    n: nat,
) -> GridMeterGuard
    decreases n,
{
    if n == 0 {
        g
    } else {
        repeated(g, i, raw, ours, (n - 1) as nat).after(i, raw, ours)
    }
}

/// The alarm comes with exactly the 48th tick without a meter: the 47 before stay within
/// the grace period, and it stays on while the meter is away. Whether the meter is
/// required makes no difference.
pub proof fn alarm_comes_with_the_48th_absent_tick(
    g: GridMeterGuard,
    i: Inputs,
    ours: bool,
    n: nat,
)
    requires
        g.grace == GRACE_TICKS,
        !GridMeterGuard::inert(i, ours),
        !i.run_without_meter,
        i.source != SOURCE_GENERATOR,
        i.active_input != ACTIVEIN_DISCONNECTED,
    ensures
        ({
            let before = repeated(g, i, None, ours, n);
            &&& before.grace == (if n < 48 {
                48 - n
            } else {
                0
            })
            &&& before.decision(i, None, ours).presence == (if n + 1 < 48 {
                Presence::Grace
            } else {
                Presence::Missing
            })
            &&& before.decision(i, None, ours).alarm_no_grid_meter == (n + 1 >= 48)
        }),
    decreases n,
{
    if n > 0 {
        alarm_comes_with_the_48th_absent_tick(g, i, ours, (n - 1) as nat);
    }
}

/// A returning meter clears the alarm in the same tick and restores the whole grace
/// period.
pub proof fn returning_meter_clears_the_alarm(
    g: GridMeterGuard,
    i: Inputs,
    raw: Option<Num>,
    ours: bool,
)
    requires
        g.fresh_after(raw),
    ensures
        !g.decision(i, raw, ours).alarm_no_grid_meter,
        g.after(i, raw, ours).grace == GRACE_TICKS,
{
}

/// A frozen meter: after its first reading it counts as usable for five more equal ones
/// and as frozen from the sixth on.
pub proof fn frozen_meter_is_stale_after_six_repeats(
    g: GridMeterGuard,
    i: Inputs,
    v: Num,
    ours: bool,
    n: nat,
)
    requires
        g.frozen_guard,
        g.last_meter_value is None,
        !v.is_nan(),
        n < u32::MAX,
    ensures
        ({
            let before = repeated(g, i, Some(v), ours, n);
            &&& before.frozen_guard
            &&& before.decision(i, Some(v), ours).usable == (n < STALE_TICKS)
            &&& before.decision(i, Some(v), ours).stale == (n >= STALE_TICKS)
        }),
        n > 0 ==> repeated(g, i, Some(v), ours, n).last_meter_value == Some(v),
        n > 0 ==> repeated(g, i, Some(v), ours, n).unchanged_ticks == n - 1,
    decreases n,
{
    if n > 0 {
        frozen_meter_is_stale_after_six_repeats(g, i, v, ours, (n - 1) as nat);
    }
}

/// A meter whose value moves is never frozen.
pub proof fn moving_meter_is_never_stale(
    g: GridMeterGuard,
    i: Inputs,
    v: Num,
    ours: bool,
)
    requires
        !(g.last_meter_value is Some && g.last_meter_value->0.same(v)),
    ensures
        g.decision(i, Some(v), ours).usable,
        !g.decision(i, Some(v), ours).stale,
{
}

/// What to regulate on, in plain terms. Nothing is written while someone else holds the
/// external mode or the inverter cannot be read; without a meter by choice or on a
/// generator the inverter's own power is used; a fresh meter is used where there is one,
/// and without it the inverter's own power only where no meter is required.
pub proof fn regulation_is_exact(g: GridMeterGuard, r: Reads, raw: Option<Num>, ours: bool)
    ensures
        ({
            let out = g.decision(r.inputs(), raw, ours);
            let foreign = !ours && (r.hub4mode is None || r.hub4mode == Some(3i32));
            let readable = r.multi_input is Some && r.multi_input->0 is Fin;
            let alone = r.run_without_meter == Some(true) || r.source == Some(2i32);
            &&& foreign || !readable ==> out.regulate == Regulation::Skip
            &&& !foreign && readable && alone ==> out.regulate == Regulation::OnMultiInput
            &&& !foreign && readable && !alone && out.usable ==> out.regulate
                == Regulation::OnGridMeter
            &&& !foreign && readable && !alone && !out.usable ==> out.regulate == (
            if r.grid_meter_required == Some(false) {
                Regulation::OnMultiInput
            } else {
                Regulation::Skip
            })
            &&& out.should_write_setpoint <==> out.regulate != Regulation::Skip
            &&& out.alarm_no_grid_meter <==> out.presence == Presence::Missing
            &&& out.run_without_meter <==> r.run_without_meter == Some(true)
        }),
{
}

/// A meter is usable where its value is known and has moved within the last six ticks,
/// or the guard against frozen meters is off; a known value that is not usable is stale.
pub proof fn usable_means_known_and_moving(g: GridMeterGuard, i: Inputs, v: i64, ours: bool)
    ensures
        ({
            let repeats = g.last_meter_value == Some(Num::Fin(v));
            let out = g.decision(i, Some(Num::Fin(v)), ours);
            &&& out.usable <==> !g.frozen_guard || !repeats || g.unchanged_ticks + 1 < 6
            &&& out.stale == !out.usable
            &&& !g.decision(i, None, ours).usable && !g.decision(i, None, ours).stale
            &&& g.after(i, Some(Num::Fin(v)), ours).last_meter_value == Some(Num::Fin(v))
            &&& g.after(i, None, ours).last_meter_value is None
            &&& repeats && g.unchanged_ticks < u32::MAX ==> g.after(
                i,
                Some(Num::Fin(v)),
                ours,
            ).unchanged_ticks == g.unchanged_ticks + 1
            &&& !repeats ==> g.after(i, Some(Num::Fin(v)), ours).unchanged_ticks == 0
        }),
{
}

/// The meter to go by is the first on the list with a value, its total before its first
/// phase; without any, the republished grid power.
pub proof fn first_meter_with_a_value_counts(ms: Seq<Meter>, system_grid: Option<Num>, k: int)
    requires
        0 <= k < ms.len(),
        forall|j: int| 0 <= j < k ==> value_of(#[trigger] ms[j]) is None,
    ensures
        value_of(ms[k]) is Some ==> meter_reading(ms, system_grid) == value_of(ms[k]) && adopted(ms)
            == Some(ms[k].service@),
        value_of(ms[k]) is None && k == ms.len() - 1 ==> adopted(ms) is None && meter_reading(
            ms,
            system_grid,
        ) == (if system_grid is Some && system_grid->0 is Fin {
            system_grid
        } else {
            None
        }),
{
    skipped_meters(ms, 0, k);
}

proof fn skipped_meters(ms: Seq<Meter>, from: int, k: int)
    requires
        0 <= from <= k < ms.len(),
        forall|j: int| from <= j < k ==> value_of(#[trigger] ms[j]) is None,
    ensures
        first_meter(ms, from) == first_meter(ms, k),
        first_meter(ms, k) == (if value_of(ms[k]) is Some {
            Some(k)
        } else {
            first_meter(ms, k + 1)
        }),
        first_meter(ms, ms.len() as int) is None,
    decreases k - from,
{
    if from < k {
        assert(value_of(ms[from]) is None);
        skipped_meters(ms, from + 1, k);
    }
}

/// The value of a meter is its total, and its first phase where it has no total; a value
/// that is not finite is none.
pub proof fn meter_value_is_the_total(m: Meter, v: Num)
    ensures
        m.power == Some(v) ==> value_of(m) == (if v is Fin {
            Some(v)
        } else {
            None
        }),
        m.power is None && m.l1_power == Some(v) ==> value_of(m) == (if v is Fin {
            Some(v)
        } else {
            None
        }),
        m.power is None && m.l1_power is None ==> value_of(m) is None,
{
}

/// The presence, in plain terms: a usable meter is present and no AC input needs none;
/// otherwise the grace period runs down, and when it is used up the meter is missing.
pub proof fn presence_is_exact(g: GridMeterGuard, r: Reads, raw: Option<Num>, ours: bool)
    requires
        r.multi_input is Some && r.multi_input->0 is Fin,
        ours || (r.hub4mode is Some && r.hub4mode != Some(3i32)),
        r.run_without_meter != Some(true),
        r.source != Some(2i32),
    ensures
        ({
            let out = g.decision(r.inputs(), raw, ours);
            let next = g.after(r.inputs(), raw, ours);
            &&& out.usable ==> out.presence == Presence::Present && next.grace == 48
            &&& !out.usable && r.active_input == Some(240i32) ==> out.presence
                == Presence::NotApplicable && next.grace == 48
            &&& !out.usable && r.active_input != Some(240i32) && g.grace > 1 ==> out.presence
                == Presence::Grace && next.grace == g.grace - 1
            &&& !out.usable && r.active_input != Some(240i32) && g.grace <= 1 ==> out.presence
                == Presence::Missing && next.grace == 0
        }),
{
}

} // verus!
