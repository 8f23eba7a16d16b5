//! Gating for a generator on the AC input.
//!
//! A generator cannot absorb power. While it is the active source the inverter may load
//! it but never feed it: feed-in is then either capped by the setpoint or shut off.

use vstd::prelude::*;

verus! {

/// What is connected to the AC input.
#[derive(Clone, Copy, Debug, PartialEq, Eq, Structural)]
pub enum AcSource {
    Unknown,
    Grid,
    Genset,
    Shore,
    /// Nothing: the inverter runs an island.
    Island,
}

impl AcSource {
    pub open spec fn spec_from_dbus(v: Option<i32>) -> AcSource {
        if v == Some(1i32) {
            AcSource::Grid
        } else if v == Some(2i32) {
            AcSource::Genset
        } else if v == Some(3i32) {
            AcSource::Shore
        } else if v == Some(240i32) {
            AcSource::Island
        } else {
            AcSource::Unknown
        }
    }

    /// Decode the source number; an unread or unmapped one is unknown.
    #[verifier::when_used_as_spec(spec_from_dbus)]
    pub fn from_dbus(v: Option<i32>) -> (r: Self)
        ensures
            r == AcSource::from_dbus(v),
    {
        match v {
            Some(1) => AcSource::Grid,
            Some(2) => AcSource::Genset,
            Some(3) => AcSource::Shore,
            Some(240) => AcSource::Island,
            _ => AcSource::Unknown,
        }
    }

    pub open spec fn spec_is_genset(self) -> bool {
        self == AcSource::Genset
    }

    /// The one source that changes the policy.
    #[verifier::when_used_as_spec(spec_is_genset)]
    pub fn is_genset(self) -> (r: bool)
        ensures
            r == self.is_genset(),
    {
        self == AcSource::Genset
    }

    /// Every other source is treated like the grid.
    pub fn is_grid_like(self) -> (r: bool)
        ensures
            r == !self.is_genset(),
    {
        !self.is_genset()
    }
}

/// How feed-in is run.
#[derive(Clone, Copy, Debug, PartialEq, Eq, Structural)]
pub enum FeedMode {
    /// The setpoint is the greatest feed-in.
    Tpimfi,
    /// Charge as hard as possible, no feed-in.
    ChargeHard,
    /// Track the grid.
    Normal,
}

/// Why and how charge is forced.
#[derive(Clone, Copy, Debug, PartialEq, Eq, Structural)]
pub struct ForceChargeCtx {
    pub must_force_charge: bool,
    pub feed_in_excess_allowed: bool,
    pub shore_limit_saturated: bool,
}

impl Default for ForceChargeCtx {
    fn default() -> (r: Self)
        ensures
            r == (ForceChargeCtx {
                must_force_charge: false,
                feed_in_excess_allowed: false,
                shore_limit_saturated: false,
            }),
    {
        ForceChargeCtx {
            must_force_charge: false,
            feed_in_excess_allowed: false,
            shore_limit_saturated: false,
        }
    }
}

/// The gating decision.
#[derive(Clone, Copy, Debug, PartialEq, Eq, Structural)]
pub struct GenOut {
    pub is_genset: bool,
    /// The setpoint must be read as the greatest feed-in.
    pub force_tpimfi: bool,
    /// No exporting.
    pub disable_export: bool,
    pub mode: FeedMode,
}

pub open spec fn spec_feed_mode(
    source: AcSource,
    dvcc: bool,
    tpimfi_supported: bool,
    fc: ForceChargeCtx,
) -> FeedMode {
    let capped = dvcc && tpimfi_supported;
    if source.is_genset() {
        if capped {
            FeedMode::Tpimfi
        } else {
            FeedMode::ChargeHard
        }
    } else if !fc.must_force_charge {
        FeedMode::Normal
    } else if capped && !fc.feed_in_excess_allowed && !fc.shore_limit_saturated {
        FeedMode::Tpimfi
    } else {
        FeedMode::ChargeHard
    }
}

/// The feed mode. On a generator nothing but the firmware's ability matters.
#[verifier::when_used_as_spec(spec_feed_mode)]
pub fn feed_mode(
    source: AcSource,
    dvcc: bool,
    tpimfi_supported: bool,
    fc: ForceChargeCtx,
) -> (r: FeedMode)
    ensures
        r == feed_mode(source, dvcc, tpimfi_supported, fc),
{
    if source.is_genset() {
        if dvcc && tpimfi_supported {
            FeedMode::Tpimfi
        } else {
            FeedMode::ChargeHard
        }
    } else if !fc.must_force_charge {
        FeedMode::Normal
    } else if dvcc && tpimfi_supported {
        if fc.feed_in_excess_allowed || fc.shore_limit_saturated {
            FeedMode::ChargeHard
        } else {
            FeedMode::Tpimfi
        }
    } else {
        FeedMode::ChargeHard
    }
}

/// One pass of reads; a field is `None` where the read failed.
#[derive(Clone, Copy, Debug, PartialEq, Eq, Structural)]
pub struct Reads {
    pub source: Option<i32>,
    pub dvcc: Option<bool>,
    /// Present on firmware that can cap feed-in by the setpoint.
    pub tpimfi: Option<i32>,
}

/// The guard, with what it last read.
#[derive(Clone, Copy, Debug, PartialEq, Eq, Structural)]
pub struct Generator {
    pub source: AcSource,
    pub dvcc: bool,
    pub tpimfi_supported: bool,
}

impl Generator {
    /// The guard after a pass of reads. A generator that was seen stays one through a
    /// dropped read; any value that is read is believed.
    pub open spec fn refreshed(self, r: Reads) -> Generator {
        Generator {
            source: if r.source is None && self.source == AcSource::Genset {
                AcSource::Genset
            } else {
                AcSource::from_dbus(r.source)
            },
            dvcc: r.dvcc == Some(true),
            tpimfi_supported: r.tpimfi is Some,
        }
    }

    pub fn new(r: &Reads) -> (g: Self)
        ensures
            g == (Generator {
                source: AcSource::from_dbus(r.source),
                dvcc: r.dvcc == Some(true),
                tpimfi_supported: r.tpimfi is Some,
            }),
    {
        let mut g = Generator { source: AcSource::Unknown, dvcc: false, tpimfi_supported: false };
        g.refresh(r);
        g
    }

    fn refresh(&mut self, r: &Reads)
        ensures
            *final(self) == old(self).refreshed(*r),
    {
        self.source = match r.source {
            Some(v) => AcSource::from_dbus(Some(v)),
            None => if self.source == AcSource::Genset {
                AcSource::Genset
            } else {
                AcSource::Unknown
            },
        };
        self.dvcc = match r.dvcc {
            Some(b) => b,
            None => false,
        };
        self.tpimfi_supported = r.tpimfi.is_some();
    }

    /// The source as last read.
    pub fn source(&self) -> (r: AcSource)
        ensures
            r == self.source,
    {
        self.source
    }

    /// The decision that the state calls for.
    pub open spec fn decision(self, fc: ForceChargeCtx) -> GenOut {
        let mode = feed_mode(self.source, self.dvcc, self.tpimfi_supported, fc);
        GenOut {
            is_genset: self.source.is_genset(),
            force_tpimfi: mode == FeedMode::Tpimfi,
            disable_export: mode != FeedMode::Normal,
            mode,
        }
    }

    /// Note what was read and decide.
    pub fn tick(&mut self, r: &Reads, fc: ForceChargeCtx) -> (out: GenOut)
        ensures
            *final(self) == old(self).refreshed(*r),
            out == old(self).refreshed(*r).decision(fc),
    {
        self.refresh(r);
        let mode = feed_mode(self.source, self.dvcc, self.tpimfi_supported, fc);
        GenOut {
            is_genset: self.source.is_genset(),
            force_tpimfi: mode == FeedMode::Tpimfi,
            disable_export: mode != FeedMode::Normal,
            mode,
        }
    }
}

/// A generator is never fed: the mode is never the one that tracks the grid, whatever
/// the battery or the firmware.
pub proof fn generator_is_never_exported_to(g: Generator, fc: ForceChargeCtx)
    requires
        g.source == AcSource::Genset,
    ensures
        g.decision(fc).disable_export,
        g.decision(fc).mode != FeedMode::Normal,
{
}

/// Any other source without forced charge is tracked normally.
pub proof fn grid_like_source_is_tracked(g: Generator, fc: ForceChargeCtx)
    requires
        g.source != AcSource::Genset,
        !fc.must_force_charge,
    ensures
        !g.decision(fc).disable_export,
        g.decision(fc).mode == FeedMode::Normal,
{
}

/// A dropped read never turns a generator into a grid; a value that is read is believed.
pub proof fn generator_sticks_through_dropped_reads(g: Generator, r: Reads, fc: ForceChargeCtx)
    ensures
        g.source == AcSource::Genset && r.source is None ==> g.refreshed(r).source
            == AcSource::Genset && g.refreshed(r).decision(fc).disable_export,
        r.source is Some ==> g.refreshed(r).source == AcSource::from_dbus(r.source),
{
}

/// Which mode when: on a generator the setpoint caps the feed-in where the firmware can,
/// and charging is as hard as possible where it cannot; on any other source the grid is
/// tracked until charge is forced. Exports are off in every mode but tracking.
pub proof fn generator_decides_by_source_and_firmware(g: Generator, r: Reads, fc: ForceChargeCtx)
    ensures
        ({
            let on_genset = r.source == Some(2i32) || (r.source is None && g.source
                == AcSource::Genset);
            let able = r.dvcc == Some(true) && r.tpimfi is Some;
            let out = g.refreshed(r).decision(fc);
            &&& out.is_genset == on_genset
            &&& on_genset && able ==> out.mode == FeedMode::Tpimfi
            &&& on_genset && !able ==> out.mode == FeedMode::ChargeHard
            &&& !on_genset && !fc.must_force_charge ==> out.mode == FeedMode::Normal
            &&& !on_genset && fc.must_force_charge && able && !fc.feed_in_excess_allowed
                && !fc.shore_limit_saturated ==> out.mode == FeedMode::Tpimfi
            &&& !on_genset && fc.must_force_charge && !(able && !fc.feed_in_excess_allowed
                && !fc.shore_limit_saturated) ==> out.mode == FeedMode::ChargeHard
            &&& out.force_tpimfi <==> out.mode == FeedMode::Tpimfi
            &&& out.disable_export <==> out.mode != FeedMode::Normal
        }),
        AcSource::from_dbus(Some(1i32)) == AcSource::Grid,
        AcSource::from_dbus(Some(3i32)) == AcSource::Shore,
        AcSource::from_dbus(Some(240i32)) == AcSource::Island,
        AcSource::from_dbus(None) == AcSource::Unknown,
{
}

} // verus!
