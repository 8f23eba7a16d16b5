//! Enactment of the state-of-charge guard.
//!
//! The decision is taken elsewhere: a battery-life service watches the state of charge
//! and publishes one state number. This module turns that number, the minimum state of
//! charge, the battery's charge request and the external overrides into what the main
//! loop applies to the command: force-charge, discharge inhibit, and a charge floor.

use crate::num::or;
use crate::num::Num;
use crate::states::bl;
use vstd::prelude::*;

verus! {

/// The state that holds the battery charged.
pub const KEEP_CHARGED: i32 = bl::SOCG_KEEP_CHARGED;

/// The slow-charge state, in which the command is held up to a charge floor.
pub const BL_FORCE_CHARGE: i32 = bl::FORCE_CHARGE;

/// "Charge as hard as allowed" (414 kW, in millionths of a watt): written when no
/// charge limit is configured, so that the inverter decides.
pub const FORCE_CHARGE_SENTINEL_W: i64 = 414_000_000_000;

/// A minimum state of charge above this (99 %, in millionths) holds the battery charged.
pub const MINSOC_KEEPCHARGED: i64 = 99_000_000;

/// The current (5 A, in millionths) of the slow-charge floor.
pub const FORCE_CHARGE_FLOOR_A: i64 = 5_000_000;

/// The states in which the battery must not be discharged.
pub open spec fn discharged(s: i32) -> bool {
    s == bl::DISCHARGED || s == bl::FORCE_CHARGE || s == bl::LOW_SOC_CHARGE || s
        == bl::SOCG_DISCHARGED || s == bl::SOCG_LOW_SOC_CHARGE
}

/// Is `s` one of the states in which the battery must not be discharged? Tested with a
/// bit mask over the eight states from 5 on.
pub fn is_discharged_set(s: i32) -> (r: bool)
    ensures
        r == discharged(s),
        r == (s == 5 || s == 6 || s == 8 || s == 11 || s == 12),
{
    if s < 5 || s > 12 {
        return false;
    }
    let d: u32 = (s - 5) as u32;
    proof {
        assert(d == 0 ==> (0xCBu32 >> d) & 1 == 1) by (bit_vector);
        assert(d == 1 ==> (0xCBu32 >> d) & 1 == 1) by (bit_vector);
        assert(d == 2 ==> (0xCBu32 >> d) & 1 == 0) by (bit_vector);
        assert(d == 3 ==> (0xCBu32 >> d) & 1 == 1) by (bit_vector);
        assert(d == 4 ==> (0xCBu32 >> d) & 1 == 0) by (bit_vector);
        assert(d == 5 ==> (0xCBu32 >> d) & 1 == 0) by (bit_vector);
        assert(d == 6 ==> (0xCBu32 >> d) & 1 == 1) by (bit_vector);
        assert(d == 7 ==> (0xCBu32 >> d) & 1 == 1) by (bit_vector);
    }
    (0xCBu32 >> d) & 1 != 0
}

/// A floor never pushes the command below zero, nor to something that is no number.
pub open spec fn floor_or_zero(x: Num) -> Num {
    if x.is_finite() && Num::Fin(0).lt(x) {
        x
    } else {
        Num::Fin(0)
    }
}

fn sanitize_floor(x: Num) -> (r: Num)
    ensures
        r == floor_or_zero(x),
{
    if x.is_finite() && Num::Fin(0).lt(x) {
        x
    } else {
        Num::Fin(0)
    }
}

/// What one tick of enactment goes by.
#[derive(Clone, Copy, Debug, PartialEq, Eq, Structural)]
pub struct Inputs {
    /// Battery-life state; 0 (disabled) where unread.
    pub bl_state: i32,
    /// Minimum state of charge (%).
    pub min_soc: Num,
    /// The battery asks to be charged.
    pub charge_request: bool,
    /// Battery voltage (V), not a number where unread.
    pub dc_voltage: Num,
    /// Sum of the effective charge limits (W), not a number where there is none.
    pub eff_max_charge_w: Num,
    /// The firmware can take the setpoint as a feed-in cap.
    pub multi_supports_tpimf: bool,
    /// External force-charge (schedule, dynamic energy service).
    pub override_force_charge: bool,
    /// External discharge cap (W); not finite or negative means none.
    pub ovr_max_discharge_w: Num,
}

/// What the main loop applies to the command.
#[derive(Clone, Copy, Debug, PartialEq, Eq, Structural)]
pub struct SocGuardOut {
    /// Charge, whatever the grid setpoint says.
    pub force_charge: bool,
    /// Greatest discharge allowed (W): 0 inhibits, infinite defers to the envelope.
    pub max_discharge_w: Num,
    /// The force-charge command, present exactly while `force_charge` is.
    pub cmd_override: Option<Num>,
    /// Use the firmware's feed-in-cap reading of the setpoint.
    pub tpimf: bool,
    /// Lower bound of a charge command (W), 0 for none.
    pub charge_floor_w: Num,
}

impl Inputs {
    /// Hold the battery charged?
    pub open spec fn keep_charged(self) -> bool {
        self.bl_state == KEEP_CHARGED || Num::Fin(MINSOC_KEEPCHARGED).lt(self.min_soc)
    }

    /// Force the battery to charge?
    pub open spec fn force_charge(self) -> bool {
        self.override_force_charge || self.charge_request || self.keep_charged() || self.bl_state
            == bl::LOW_SOC_CHARGE || self.bl_state == bl::SOCG_LOW_SOC_CHARGE
    }

    /// The external discharge cap, infinite where there is none.
    pub open spec fn discharge_cap(self) -> Num {
        if self.ovr_max_discharge_w.is_finite() && Num::Fin(0).le(self.ovr_max_discharge_w) {
            self.ovr_max_discharge_w
        } else {
            Num::PosInf
        }
    }
}

/// Turn the inputs into an enactment. Total: whatever is unread or not a number falls
/// to the side that neither force-charges nor drains.
pub fn enact(inp: &Inputs) -> (out: SocGuardOut)
    ensures
        out == enacted(*inp),
{
    let keep_charged = inp.bl_state == KEEP_CHARGED || Num::Fin(MINSOC_KEEPCHARGED).lt(inp.min_soc);
    let force_charge = inp.override_force_charge || inp.charge_request || keep_charged
        || inp.bl_state == bl::LOW_SOC_CHARGE || inp.bl_state == bl::SOCG_LOW_SOC_CHARGE;
    let state_inhibit = if is_discharged_set(inp.bl_state) {
        Num::Fin(0)
    } else {
        Num::PosInf
    };
    let ovr_cap = if inp.ovr_max_discharge_w.is_finite() && Num::Fin(0).le(
        inp.ovr_max_discharge_w,
    ) {
        inp.ovr_max_discharge_w
    } else {
        Num::PosInf
    };
    let charge_floor_w = if inp.bl_state == BL_FORCE_CHARGE {
        sanitize_floor(Num::Fin(FORCE_CHARGE_FLOOR_A).times(inp.dc_voltage))
    } else {
        Num::Fin(0)
    };
    let cmd_override = if force_charge {
        Some(
            if inp.eff_max_charge_w.is_finite() && Num::Fin(0).lt(inp.eff_max_charge_w) {
                inp.eff_max_charge_w
            } else {
                Num::Fin(FORCE_CHARGE_SENTINEL_W)
            },
        )
    } else {
        None
    };
    SocGuardOut {
        force_charge,
        max_discharge_w: state_inhibit.min(ovr_cap),
        cmd_override,
        tpimf: force_charge && inp.multi_supports_tpimf,
        charge_floor_w,
    }
}

/// The enactment that the inputs call for.
pub open spec fn enacted(inp: Inputs) -> SocGuardOut {
    SocGuardOut {
        force_charge: inp.force_charge(),
        max_discharge_w: if discharged(inp.bl_state) {
            Num::Fin(0)
        } else {
            inp.discharge_cap()
        },
        cmd_override: if inp.force_charge() {
            Some(
                if inp.eff_max_charge_w.is_finite() && Num::Fin(0).lt(inp.eff_max_charge_w) {
                    inp.eff_max_charge_w
                } else {
                    Num::Fin(FORCE_CHARGE_SENTINEL_W)
                },
            )
        } else {
            None
        },
        tpimf: inp.force_charge() && inp.multi_supports_tpimf,
        charge_floor_w: if inp.bl_state == BL_FORCE_CHARGE {
            floor_or_zero(Num::Fin(FORCE_CHARGE_FLOOR_A).times(inp.dc_voltage))
        } else {
            Num::Fin(0)
        },
    }
}

/// What a discovery of the battery service found: the published name of the active
/// one, and the battery services on the bus.
pub open spec fn found_bms(active: Option<Seq<char>>, services: Seq<Seq<char>>) -> Option<
    Seq<char>,
> {
    if active is Some && active->0.len() > 0 {
        active
    } else if services.len() > 0 {
        Some(services[0])
    } else {
        None
    }
}

/// The battery service to read: the active one where it has a name, else the first
/// battery service there is.
pub fn resolve_bms(active: Option<String>, services: &Vec<String>) -> (r: Option<String>)
    ensures
        crate::text::text(r) == found_bms(crate::text::text(active), crate::text::texts(services@)),
{
    if let Some(s) = active {
        if s.as_str().unicode_len() > 0 {
            return Some(s);
        }
    }
    if services.len() > 0 {
        Some(services[0].clone())
    } else {
        None
    }
}

/// One pass of reads; a field is `None` where the read failed.
#[derive(Clone, Copy, Debug, PartialEq, Eq, Structural)]
pub struct Reads {
    /// Charge request of the resolved battery service.
    pub charge_request: Option<bool>,
    /// Configured charge limit (W).
    pub max_charge_w: Option<Num>,
    pub bl_state: Option<i32>,
    pub min_soc: Option<Num>,
    pub dc_voltage: Option<Num>,
    /// The firmware's feed-in-cap item: present on firmware that can use it.
    pub tpimf: Option<Num>,
    pub override_force_charge: Option<i32>,
    pub ovr_max_discharge_w: Option<Num>,
}

impl Reads {
    /// The inputs that one pass of reads stands for. A charge limit counts only where
    /// it is above zero; a failed read falls to "nothing asked, nothing known".
    pub open spec fn inputs(self) -> Inputs {
        Inputs {
            bl_state: match self.bl_state {
                Some(s) => s,
                None => 0,
            },
            min_soc: or(self.min_soc, Num::Fin(0)),
            charge_request: self.charge_request == Some(true),
            dc_voltage: or(self.dc_voltage, Num::Nan),
            eff_max_charge_w: if self.max_charge_w is Some && Num::Fin(0).lt(
                self.max_charge_w->0,
            ) {
                self.max_charge_w->0
            } else {
                Num::Nan
            },
            multi_supports_tpimf: self.tpimf is Some,
            override_force_charge: self.override_force_charge is Some
                && self.override_force_charge->0 != 0,
            ovr_max_discharge_w: or(self.ovr_max_discharge_w, Num::Nan),
        }
    }
}

/// The enactor. It holds the battery service once one was found.
pub struct SocGuard {
    pub bms_service: Option<String>,
}

impl SocGuard {
    pub fn new(active: Option<String>, services: &Vec<String>) -> (g: Self)
        ensures
            crate::text::text(g.bms_service) == found_bms(crate::text::text(active), crate::text::texts(services@)),
    {
        SocGuard { bms_service: resolve_bms(active, services) }
    }

    /// Look for the battery service again, as long as none was found.
    pub fn resolve(&mut self, active: Option<String>, services: &Vec<String>)
        ensures
            crate::text::text(final(self).bms_service) == (if old(self).bms_service is Some {
                crate::text::text(old(self).bms_service)
            } else {
                found_bms(crate::text::text(active), crate::text::texts(services@))
            }),
    {
        if self.bms_service.is_none() {
            self.bms_service = resolve_bms(active, services);
        }
    }

    fn read(&self, reads: &Reads) -> (inp: Inputs)
        ensures
            inp == reads.inputs(),
    {
        let eff_max_charge_w = match reads.max_charge_w {
            Some(x) => if Num::Fin(0).lt(x) {
                x
            } else {
                Num::Nan
            },
            None => Num::Nan,
        };
        Inputs {
            bl_state: match reads.bl_state {
                Some(s) => s,
                None => 0,
            },
            min_soc: or(reads.min_soc, Num::Fin(0)),
            charge_request: match reads.charge_request {
                Some(b) => b,
                None => false,
            },
            dc_voltage: or(reads.dc_voltage, Num::Nan),
            eff_max_charge_w,
            multi_supports_tpimf: reads.tpimf.is_some(),
            override_force_charge: match reads.override_force_charge {
                Some(x) => x != 0,
                None => false,
            },
            ovr_max_discharge_w: or(reads.ovr_max_discharge_w, Num::Nan),
        }
    }

    /// Turn one pass of reads into an enactment.
    pub fn tick(&mut self, reads: &Reads) -> (out: SocGuardOut)
        ensures
            out == enacted(reads.inputs()),
            *final(self) == *old(self),
    {
        let inp = self.read(reads);
        enact(&inp)
    }
}

/// A force-charge command is present exactly while force-charging, and it charges.
pub proof fn force_charge_has_a_command(inp: Inputs)
    ensures
        enacted(inp).force_charge == (enacted(inp).cmd_override is Some),
        enacted(inp).cmd_override matches Some(w) ==> w.is_finite() && Num::Fin(0).lt(w),
        enacted(inp).tpimf ==> enacted(inp).force_charge,
{
}

/// The most restrictive discharge limit wins: in a discharged state nothing may be
/// discharged whatever the override says, and elsewhere an override can only tighten.
/// The limit is never negative and never "not a number".
pub proof fn discharge_limit_is_most_restrictive(inp: Inputs)
    ensures
        Num::Fin(0).le(enacted(inp).max_discharge_w),
        discharged(inp.bl_state) ==> enacted(inp).max_discharge_w == Num::Fin(0),
        inp.ovr_max_discharge_w.is_finite() && Num::Fin(0).le(inp.ovr_max_discharge_w)
            ==> enacted(inp).max_discharge_w.le(inp.ovr_max_discharge_w),
{
}

/// Reads that all failed enact nothing: no force-charge, no inhibit, no floor.
pub proof fn failed_reads_enact_nothing(reads: Reads)
    requires
        reads == (Reads {
            charge_request: None,
            max_charge_w: None,
            bl_state: None,
            min_soc: None,
            dc_voltage: None,
            tpimf: None,
            override_force_charge: None,
            ovr_max_discharge_w: None,
        }),
    ensures
        enacted(reads.inputs()) == (SocGuardOut {
            force_charge: false,
            max_discharge_w: Num::PosInf,
            cmd_override: None,
            tpimf: false,
            charge_floor_w: Num::Fin(0),
        }),
{
}

/// The charge floor is a finite, non-negative power, and there is none outside the
/// slow-charge state or where the voltage is unread.
pub proof fn charge_floor_is_safe(inp: Inputs)
    ensures
        enacted(inp).charge_floor_w.is_finite(),
        Num::Fin(0).le(enacted(inp).charge_floor_w),
        inp.bl_state != BL_FORCE_CHARGE || inp.dc_voltage.is_nan()
            ==> enacted(inp).charge_floor_w == Num::Fin(0),
{
}

/// What the guard enacts, cause by cause. A charge is forced by the energy manager, by
/// the battery, by the states 8, 9 and 12, and by a minimum charge above 99 %; it is told
/// the configured charge power, or 414 kW where there is none. The states 5, 6, 8, 11 and
/// 12 forbid discharge, and a cap that was set from outside caps it. In state 6 there is
/// a floor of 5 A at the battery's voltage.
pub proof fn guard_enacts_its_causes(inp: Inputs, volts: i64)
    requires
        0 <= volts <= 1_000_000_000_000,
    ensures
        ({
            let out = enacted(inp);
            let s = inp.bl_state;
            &&& out.force_charge <==> inp.override_force_charge || inp.charge_request || s == 8 || s
                == 9 || s == 12 || inp.min_soc is PosInf || (inp.min_soc is Fin
                && inp.min_soc->Fin_0 > 99_000_000)
            &&& out.force_charge ==> out.cmd_override == Some(
                if inp.eff_max_charge_w is Fin && inp.eff_max_charge_w->Fin_0 > 0 {
                    inp.eff_max_charge_w
                } else {
                    Num::Fin(414_000_000_000)
                },
            )
            &&& !out.force_charge ==> out.cmd_override is None
            &&& out.tpimf == (out.force_charge && inp.multi_supports_tpimf)
            &&& s == 5 || s == 6 || s == 8 || s == 11 || s == 12 ==> out.max_discharge_w
                == Num::Fin(0)
            &&& !(s == 5 || s == 6 || s == 8 || s == 11 || s == 12) ==> out.max_discharge_w == (
            if inp.ovr_max_discharge_w is Fin && inp.ovr_max_discharge_w->Fin_0 >= 0 {
                inp.ovr_max_discharge_w
            } else {
                Num::PosInf
            })
            &&& s == 6 && inp.dc_voltage == Num::Fin(volts) ==> out.charge_floor_w == Num::Fin(
                (5 * volts) as i64,
            )
            &&& s != 6 ==> out.charge_floor_w == Num::Fin(0)
        }),
{
}

/// The inputs are what was read: a charge limit only where it is positive, a request only
/// where it is made, an override only where it is set.
pub proof fn guard_reads_are_taken_as_they_are(r: Reads)
    ensures
        ({
            let i = r.inputs();
            &&& i.bl_state == (match r.bl_state {
                Some(s) => s,
                None => 0,
            })
            &&& i.charge_request <==> r.charge_request == Some(true)
            &&& i.override_force_charge <==> r.override_force_charge is Some
                && r.override_force_charge->0 != 0
            &&& i.multi_supports_tpimf <==> r.tpimf is Some
            &&& r.min_soc is Some ==> i.min_soc == r.min_soc->0
            &&& r.min_soc is None ==> i.min_soc == Num::Fin(0)
            &&& r.dc_voltage is Some ==> i.dc_voltage == r.dc_voltage->0
            &&& r.dc_voltage is None ==> i.dc_voltage == Num::Nan
            &&& r.ovr_max_discharge_w is Some ==> i.ovr_max_discharge_w
                == r.ovr_max_discharge_w->0
            &&& r.ovr_max_discharge_w is None ==> i.ovr_max_discharge_w == Num::Nan
            &&& r.max_charge_w matches Some(Num::Fin(w)) ==> i.eff_max_charge_w == (if w > 0 {
                Num::Fin(w)
            } else {
                Num::Nan
            })
            &&& r.max_charge_w is None ==> i.eff_max_charge_w == Num::Nan
        }),
{
}

/// The battery service is the active one where it has a name, else the first there is.
pub proof fn active_battery_comes_first(active: Option<Seq<char>>, services: Seq<Seq<char>>)
    ensures
        active is Some && active->0.len() > 0 ==> found_bms(active, services) == active,
        !(active is Some && active->0.len() > 0) && services.len() > 0 ==> found_bms(
            active,
            services,
        ) == Some(services[0]),
        !(active is Some && active->0.len() > 0) && services.len() == 0 ==> found_bms(
            active,
            services,
        ) is None,
{
}

} // verus!
