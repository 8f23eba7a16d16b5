//! AC-input current limiter (peak shaving).
//!
//! The firmware does the shaving; this module only decides, per phase, which limit to
//! hand it. Without a configured limit nothing is touched. With one, a first-order
//! filter slews the written limit towards it, or the limit is released with a value
//! that means "unlimited".

use crate::num::near;
use crate::num::products_are_rounded;
use crate::num::Num;
use crate::text::decimal_text;
use crate::text::join3;
use vstd::prelude::*;

verus! {

/// The value (3270 A, in millionths) that releases the limit.
pub const SHORE_UNLIMITED: i64 = 3_270_000_000;

/// The share of its old value that the filter keeps (0.8, in millionths).
pub const IIR_RETAIN: i64 = 800_000;

/// The weight of the new error (0.2, in millionths).
pub const IIR_UPDATE: i64 = 200_000;

pub const MAX_PHASES: usize = 3;

/// The item that holds the overruled limit of one phase.
pub fn p_overruled(phase: u8) -> (r: String)
    ensures
        r@ == "/Hub4/L"@ + crate::text::decimal(phase as nat) + "/OverruledShoreLimit"@,
{
    join3("/Hub4/L", decimal_text(phase as u64).as_str(), "/OverruledShoreLimit")
}

/// The item that holds the inverter's AC-in current of one phase.
pub fn p_active_in_i(phase: u8) -> (r: String)
    ensures
        r@ == "/Ac/ActiveIn/L"@ + crate::text::decimal(phase as nat) + "/I"@,
{
    join3("/Ac/ActiveIn/L", decimal_text(phase as u64).as_str(), "/I")
}

/// The decision for one phase.
#[derive(Clone, Copy, Debug, PartialEq, Eq, Structural)]
pub enum ShoreWrite {
    /// Impose this limit (A), never negative.
    Impose(Num),
    /// Lift the limit.
    Release,
}

impl ShoreWrite {
    pub open spec fn spec_value(&self) -> Num {
        match *self {
            ShoreWrite::Impose(a) => a,
            ShoreWrite::Release => Num::Fin(SHORE_UNLIMITED),
        }
    }

    /// The value to write.
    #[verifier::when_used_as_spec(spec_value)]
    pub fn value(&self) -> (r: Num)
        ensures
            r == self.value(),
    {
        match *self {
            ShoreWrite::Impose(a) => a,
            ShoreWrite::Release => Num::Fin(SHORE_UNLIMITED),
        }
    }
}

/// The outcome of one tick.
#[derive(Debug)]
pub struct ShoreOut {
    /// The value for the first phase (A); not a number where it stays untouched.
    pub overruled_shore_limit_a: Num,
    /// The limit is being managed.
    pub active: bool,
    /// The decision for each phase, the first phase first; `None` leaves it untouched.
    pub writes: Vec<Option<ShoreWrite>>,
}

impl Default for ShoreOut {
    /// Dormant, with no phase to write.
    fn default() -> (r: Self)
        ensures
            r.overruled_shore_limit_a == Num::Fin(0),
            !r.active,
            r.writes@ == Seq::<Option<ShoreWrite>>::empty(),
    {
        ShoreOut { overruled_shore_limit_a: Num::Fin(0), active: false, writes: Vec::new() }
    }
}

/// A configured limit, if it is one.
pub open spec fn usable_limit(limit: Option<Num>) -> Option<Num> {
    match limit {
        Some(l) => if l.is_finite() && Num::Fin(0).le(l) {
            Some(l)
        } else {
            None
        },
        None => None,
    }
}

/// The current of phase `n`, where the list has a finite one.
pub open spec fn current(v: Seq<Option<Num>>, n: int) -> Option<Num> {
    if n < v.len() && v[n] is Some && v[n]->0.is_finite() {
        v[n]
    } else {
        None
    }
}

fn current_at(v: &[Option<Num>], n: usize) -> (r: Option<Num>)
    ensures
        r == current(v@, n as int),
{
    if n < v.len() {
        match v[n] {
            Some(x) => if x.is_finite() {
                Some(x)
            } else {
                None
            },
            None => None,
        }
    } else {
        None
    }
}

/// The filter memory of one phase as the next step starts from it: 0 until seeded.
pub open spec fn memory(f: Option<Num>) -> Num {
    match f {
        Some(v) => if v.is_finite() {
            v
        } else {
            Num::Fin(0)
        },
        None => Num::Fin(0),
    }
}

/// One step of the filter.
pub open spec fn filtered(old: Option<Num>, limit: Num, meter: Num, multi: Num) -> Num {
    Num::Fin(IIR_RETAIN).times(memory(old)).plus(
        Num::Fin(IIR_UPDATE).times(limit.minus(meter).plus(multi)),
    )
}

fn filter_step(old: Option<Num>, limit: Num, meter: Num, multi: Num) -> (r: Num)
    ensures
        r == filtered(old, limit, meter, multi),
{
    let kept = match old {
        Some(v) => if v.is_finite() {
            v
        } else {
            Num::Fin(0)
        },
        None => Num::Fin(0),
    };
    Num::Fin(IIR_RETAIN).times(kept).plus(
        Num::Fin(IIR_UPDATE).times(limit.minus(meter).plus(multi)),
    )
}

/// The limiter, with its filter memory per phase.
pub struct ShoreLimiter {
    pub filt: Vec<Option<Num>>,
    pub phases: u8,
}

impl ShoreLimiter {
    /// One to three phases, and a memory for each of three.
    pub open spec fn wf(self) -> bool {
        self.filt@.len() == MAX_PHASES && 1 <= self.phases <= MAX_PHASES
    }

    pub fn new(phases: u8) -> (s: Self)
        ensures
            s.wf(),
            s.phases == (if phases < 1 {
                1
            } else if phases > 3 {
                3
            } else {
                phases as int
            }),
            forall|n: int| 0 <= n < 3 ==> (#[trigger] s.filt@[n]) is None,
    {
        let phases: u8 = if phases < 1 {
            1
        } else if phases > 3 {
            3
        } else {
            phases
        };
        ShoreLimiter { filt: vec![None, None, None], phases }
    }

    pub open spec fn negative(self) -> bool {
        exists|n: int|
            0 <= n < self.filt@.len() && (#[trigger] self.filt@[n]) is Some
                && self.filt@[n]->0.lt(Num::Fin(0))
    }

    /// Has the memory of any phase gone below zero? No current limit can.
    pub fn any_phase_negative(&self) -> (r: bool)
        ensures
            r == self.negative(),
    {
        let mut n: usize = 0;
        while n < self.filt.len()
            invariant
                n <= self.filt.len(),
                forall|k: int|
                    0 <= k < n ==> !((#[trigger] self.filt@[k]) is Some && self.filt@[k]->0.lt(
                        Num::Fin(0),
                    )),
            decreases self.filt.len() - n,
        {
            if let Some(v) = self.filt[n] {
                if v.lt(Num::Fin(0)) {
                    return true;
                }
            }
            n += 1;
        }
        false
    }

    /// Is the limit managed this tick? Not without a configured limit, nor while an
    /// external meter meters the AC input.
    pub open spec fn managing(limit: Option<Num>, meter_present: bool) -> bool {
        usable_limit(limit) is Some && !meter_present
    }

    /// The filter value of phase `n` after the tick, where the tick moves it.
    pub open spec fn moved(
        self,
        limit: Option<Num>,
        meter_present: bool,
        meter_i: Seq<Option<Num>>,
        multi_i: Seq<Option<Num>>,
        n: int,
    ) -> Option<Num> {
        if ShoreLimiter::managing(limit, meter_present) && n < self.phases && current(
            meter_i,
            n,
        ) is Some && current(multi_i, n) is Some {
            Some(
                filtered(
                    self.filt@[n],
                    limit->0,
                    current(meter_i, n)->0,
                    current(multi_i, n)->0,
                ),
            )
        } else {
            None
        }
    }

    /// The decision for phase `n`.
    pub open spec fn decision(
        self,
        limit: Option<Num>,
        meter_present: bool,
        meter_i: Seq<Option<Num>>,
        multi_i: Seq<Option<Num>>,
        release: bool,
        n: int,
    ) -> Option<ShoreWrite> {
        match self.moved(limit, meter_present, meter_i, multi_i, n) {
            Some(v) => Some(
                if release {
                    ShoreWrite::Release
                } else {
                    ShoreWrite::Impose(v.max(Num::Fin(0)))
                },
            ),
            None => None,
        }
    }

    /// What one tick does: `next` is the limiter afterwards and `out` the outcome.
    pub open spec fn ticked(
        self,
        next: ShoreLimiter,
        out: ShoreOut,
        limit: Option<Num>,
        meter_present: bool,
        meter_i: Seq<Option<Num>>,
        multi_i: Seq<Option<Num>>,
        release: bool,
    ) -> bool {
        &&& next.wf()
        &&& next.phases == self.phases
        &&& forall|n: int|
            0 <= n < 3 ==> #[trigger] next.filt@[n] == (match self.moved(
                limit,
                meter_present,
                meter_i,
                multi_i,
                n,
            ) {
                Some(v) => Some(v),
                None => self.filt@[n],
            })
        &&& out.active == ShoreLimiter::managing(limit, meter_present)
        &&& out.writes@.len() == self.phases
        &&& forall|n: int|
            0 <= n < self.phases ==> #[trigger] out.writes@[n] == self.decision(
                limit,
                meter_present,
                meter_i,
                multi_i,
                release,
                n,
            )
        &&& out.overruled_shore_limit_a == (match self.decision(
            limit,
            meter_present,
            meter_i,
            multi_i,
            release,
            0,
        ) {
            Some(w) => w.value(),
            None => Num::Nan,
        })
    }

    /// One tick. A phase without both currents keeps its memory and is left untouched.
    pub fn tick(
        &mut self,
        ac_input_limit_a: Option<Num>,
        meter_present: bool,
        meter_i: &[Option<Num>],
        multi_i: &[Option<Num>],
        release: bool,
    ) -> (out: ShoreOut)
        requires
            old(self).wf(),
        ensures
            old(self).ticked(
                *final(self),
                out,
                ac_input_limit_a,
                meter_present,
                meter_i@,
                multi_i@,
                release,
            ),
    {
        let n_phases: usize = self.phases as usize;
        let mut writes: Vec<Option<ShoreWrite>> = Vec::new();
        let limit = match ac_input_limit_a {
            Some(l) => if l.is_finite() && Num::Fin(0).le(l) && !meter_present {
                Some(l)
            } else {
                None
            },
            None => None,
        };
        let mut n: usize = 0;
        while n < n_phases
            invariant
                self.wf(),
                old(self).wf(),
                self.phases == old(self).phases,
                n_phases == self.phases,
                n <= n_phases,
                limit == (if ShoreLimiter::managing(ac_input_limit_a, meter_present) {
                    ac_input_limit_a
                } else {
                    None
                }),
                writes@.len() == n,
                forall|k: int|
                    n <= k < 3 ==> #[trigger] self.filt@[k] == old(self).filt@[k],
                forall|k: int|
                    0 <= k < n ==> #[trigger] self.filt@[k] == (match old(self).moved(
                        ac_input_limit_a,
                        meter_present,
                        meter_i@,
                        multi_i@,
                        k,
                    ) {
                        Some(v) => Some(v),
                        None => old(self).filt@[k],
                    }),
                forall|k: int|
                    0 <= k < n ==> #[trigger] writes@[k] == old(self).decision(
                        ac_input_limit_a,
                        meter_present,
                        meter_i@,
                        multi_i@,
                        release,
                        k,
                    ),
            decreases n_phases - n,
        {
            match (limit, current_at(meter_i, n), current_at(multi_i, n)) {
                (Some(l), Some(mi), Some(vi)) => {
                    let next = filter_step(self.filt[n], l, mi, vi);
                    self.filt.set(n, Some(next));
                    writes.push(
                        Some(
                            if release {
                                ShoreWrite::Release
                            } else {
                                ShoreWrite::Impose(next.max(Num::Fin(0)))
                            },
                        ),
                    );
                },
                _ => {
                    writes.push(None);
                },
            }
            n += 1;
        }
        let l1 = match writes[0] {
            Some(w) => w.value(),
            None => Num::Nan,
        };
        ShoreOut { overruled_shore_limit_a: l1, active: limit.is_some(), writes }
    }

    /// The writes that a decision calls for, as phase (from 1) and value, in order.
    pub open spec fn plan(writes: Seq<Option<ShoreWrite>>) -> Seq<(u8, Num)>
        decreases writes.len(),
    {
        if writes.len() == 0 {
            Seq::empty()
        } else {
            let before = ShoreLimiter::plan(writes.drop_last());
            match writes.last() {
                Some(w) => before.push((writes.len() as u8, w.value())),
                None => before,
            }
        }
    }

    /// The writes to make: phases without a decision are left untouched.
    pub fn write(&self, out: &ShoreOut) -> (r: Vec<(u8, Num)>)
        requires
            out.writes@.len() <= u8::MAX,
        ensures
            r@ == ShoreLimiter::plan(out.writes@),
    {
        let mut r: Vec<(u8, Num)> = Vec::new();
        let mut i: usize = 0;
        proof {
            assert(out.writes@.take(0) =~= Seq::<Option<ShoreWrite>>::empty());
        }
        while i < out.writes.len()
            invariant
                i <= out.writes.len() <= u8::MAX,
                r@ == ShoreLimiter::plan(out.writes@.take(i as int)),
            decreases out.writes.len() - i,
        {
            proof {
                assert(out.writes@.take(i + 1).drop_last() =~= out.writes@.take(i as int));
            }
            if let Some(w) = out.writes[i] {
                r.push(((i + 1) as u8, w.value()));
            }
            i += 1;
        }
        proof {
            assert(out.writes@.take(out.writes.len() as int) =~= out.writes@);
        }
        r
    }

    /// One tick of an inverter that meters itself: `multi_i` holds the AC-in current
    /// of each phase, which stands for the meter's too. Whether to impose or to
    /// release follows from the guard's state and the memory before the tick.
    pub fn tick_from_bus(
        &mut self,
        multi_i: &[Option<Num>],
        ac_input_limit_a: Option<Num>,
        meter_present: bool,
        always_peak_shave: bool,
        above_min_soc: bool,
        force_charging: bool,
    ) -> (out: ShoreOut)
        requires
            old(self).wf(),
        ensures
            old(self).ticked(
                *final(self),
                out,
                ac_input_limit_a,
                meter_present,
                multi_i@,
                multi_i@,
                should_release(
                    always_peak_shave,
                    above_min_soc,
                    force_charging,
                    old(self).negative(),
                ),
            ),
    {
        let release = should_release(
            always_peak_shave,
            above_min_soc,
            force_charging,
            self.any_phase_negative(),
        );
        self.tick(ac_input_limit_a, meter_present, multi_i, multi_i, release)
    }
}

pub open spec fn spec_should_release(
    always_peak_shave: bool,
    above_min_soc: bool,
    force_charging: bool,
    any_phase_negative: bool,
) -> bool {
    force_charging || (!always_peak_shave && !above_min_soc) || any_phase_negative
}

/// Release the limit, rather than impose it? While charging from the grid, below the
/// minimum state of charge unless shaving always, and when the filter has gone
/// non-physical.
#[verifier::when_used_as_spec(spec_should_release)]
pub fn should_release(
    always_peak_shave: bool,
    above_min_soc: bool,
    force_charging: bool,
    any_phase_negative: bool,
) -> (r: bool)
    ensures
        r == should_release(always_peak_shave, above_min_soc, force_charging, any_phase_negative),
{
    if force_charging {
        return true;
    }
    if !always_peak_shave && !above_min_soc {
        return true;
    }
    any_phase_negative
}

/// The configured limit (A): a negative, unread or non-finite setting is none.
pub fn read_ac_input_limit(setting: Option<Num>) -> (r: Option<Num>)
    ensures
        r == usable_limit(setting),
{
    match setting {
        Some(l) => if l.is_finite() && Num::Fin(0).le(l) {
            Some(l)
        } else {
            None
        },
        None => None,
    }
}

/// The always-shave flag; unread means no.
pub fn read_always_peak_shave(setting: Option<bool>) -> (r: bool)
    ensures
        r == (setting == Some(true)),
{
    match setting {
        Some(b) => b,
        None => false,
    }
}

/// Dormant means untouched: without a usable limit, or under an external meter, no
/// phase is written and no filter memory moves.
pub proof fn dormant_touches_nothing(
    s: ShoreLimiter,
    limit: Option<Num>,
    meter_present: bool,
    meter_i: Seq<Option<Num>>,
    multi_i: Seq<Option<Num>>,
    release: bool,
    n: int,
)
    requires
        usable_limit(limit) is None || meter_present,
    ensures
        s.decision(limit, meter_present, meter_i, multi_i, release, n) is None,
        s.moved(limit, meter_present, meter_i, multi_i, n) is None,
{
}

/// No negative current limit is ever written.
pub proof fn written_limit_is_not_negative(
    s: ShoreLimiter,
    limit: Option<Num>,
    meter_present: bool,
    meter_i: Seq<Option<Num>>,
    multi_i: Seq<Option<Num>>,
    release: bool,
    n: int,
)
    ensures
        s.decision(limit, meter_present, meter_i, multi_i, release, n) matches Some(w)
            ==> Num::Fin(0).le(w.value()),
{
}

/// With equal currents the filter moves towards the configured limit and never past
/// it: the new value lies between the old one and the limit.
pub proof fn filter_approaches_the_limit(old: Num, limit: Num, i: Num)
    requires
        old.is_finite(),
        limit.is_finite(),
        i.is_finite(),
        Num::Fin(0).le(limit),
        limit.minus(i).is_inside(),
    ensures
        ({
            let next = filtered(Some(old), limit, i, i);
            &&& next.is_finite()
            &&& old.min(limit).micros() - 1 <= next.micros() <= old.max(limit).micros() + 1
        }),
{
    let o = old.micros();
    let l = limit.micros();
    let e = l - i.micros() + i.micros();
    crate::num::round_div_error(800_000 * o, 1_000_000);
    crate::num::round_div_error(200_000 * l, 1_000_000);
    let a = crate::num::round_div(800_000 * o, 1_000_000);
    let b = crate::num::round_div(200_000 * l, 1_000_000);
    assert(e == l);
}

/// The filter keeps eight tenths of its memory and takes two tenths of the limit less
/// what the meter sees plus what the inverter draws; it starts from nothing.
pub proof fn filter_step_is_exact(old: Option<Num>, kept: i64, limit: i64, meter: i64, multi: i64)
    requires
        old == Some(Num::Fin(kept)) || (kept == 0 && !(old is Some && old->0 is Fin)),
        -1_000_000_000_000_000 <= kept <= 1_000_000_000_000_000,
        -1_000_000_000_000_000 <= limit <= 1_000_000_000_000_000,
        -1_000_000_000_000_000 <= meter <= 1_000_000_000_000_000,
        -1_000_000_000_000_000 <= multi <= 1_000_000_000_000_000,
    ensures
        ({
            let next = filtered(old, Num::Fin(limit), Num::Fin(meter), Num::Fin(multi));
            &&& next is Fin
            &&& near(10 * next->Fin_0, 8 * kept + 2 * (limit - meter + multi), 10)
        }),
{
    let e = (limit - meter + multi) as i64;
    products_are_rounded(800_000, kept);
    products_are_rounded(200_000, e);
}

/// A phase is written exactly where a limit is set, no external meter meters the input
/// and both currents are known: the filtered limit, never below nothing, or the release
/// value of 3270 A.
pub proof fn phase_is_written_exactly_when(
    s: ShoreLimiter,
    limit: Option<Num>,
    meter_present: bool,
    meter_i: Seq<Option<Num>>,
    multi_i: Seq<Option<Num>>,
    release: bool,
    n: int,
)
    requires
        s.wf(),
        0 <= n < s.phases,
    ensures
        ({
            let w = s.decision(limit, meter_present, meter_i, multi_i, release, n);
            let managed = limit is Some && limit->0 is Fin && limit->0->Fin_0 >= 0
                && !meter_present;
            let known = n < meter_i.len() && meter_i[n] is Some && meter_i[n]->0 is Fin && n
                < multi_i.len() && multi_i[n] is Some && multi_i[n]->0 is Fin;
            &&& w is Some <==> managed && known
            &&& w is Some && release ==> w->0 == ShoreWrite::Release && w->0.value() == Num::Fin(
                3_270_000_000,
            )
            &&& w is Some && !release ==> ({
                let f = filtered(s.filt@[n], limit->0, meter_i[n]->0, multi_i[n]->0);
                &&& s.moved(limit, meter_present, meter_i, multi_i, n) == Some(f)
                &&& f is Fin ==> w->0.value() == Num::Fin(
                    if f->Fin_0 < 0 {
                        0
                    } else {
                        f->Fin_0
                    },
                )
            })
        }),
{
}

/// The limit is released while charge is forced, below the minimum charge unless it
/// always shaves, and when a memory has gone negative; otherwise it is imposed.
pub proof fn release_has_these_causes(always: bool, above: bool, forced: bool, negative: bool)
    ensures
        should_release(always, above, forced, negative) <==> forced || negative || (!always
            && !above),
{
}

/// The writes go to the phases that have a decision, counted from one, and carry its
/// value.
pub proof fn plan_numbers_the_phases(writes: Seq<Option<ShoreWrite>>, w: Option<ShoreWrite>)
    requires
        writes.len() < 255,
    ensures
        ShoreLimiter::plan(Seq::empty()) == Seq::<(u8, Num)>::empty(),
        w is None ==> ShoreLimiter::plan(writes.push(w)) == ShoreLimiter::plan(writes),
        w is Some ==> ShoreLimiter::plan(writes.push(w)) == ShoreLimiter::plan(writes).push(
            ((writes.len() + 1) as u8, w->0.value()),
        ),
{
    assert(writes.push(w).drop_last() =~= writes);
}

/// A memory below nothing is found on whichever phase it is.
pub proof fn negative_memory_is_found(s: ShoreLimiter, n: int, f: i64)
    requires
        0 <= n < s.filt@.len(),
        s.filt@[n] == Some(Num::Fin(f)),
    ensures
        f < 0 ==> s.negative(),
        (forall|k: int| 0 <= k < s.filt@.len() ==> (#[trigger] s.filt@[k]) is None || (
        s.filt@[k]->0 is Fin && s.filt@[k]->0->Fin_0 >= 0)) ==> !s.negative(),
{
}

} // verus!
